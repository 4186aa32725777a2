//! Requests for films, seasons and series, behind a tiered safety rule.
//!
//! Every request is classified before anything is done. A specific, unambiguous, single item below
//! the size limit is carried out at once. Anything ambiguous, bulk, series-wide or oversized is
//! answered with what it would do, and carried out only when asked for again with `confirm: true`.
use vstd::prelude::*;

use crate::http::{
    opt_request, replies_view, HttpReply, HttpRequest, Method, ReplyView, RequestView,
};
use crate::json::{int_or_null, jsons, no_fields, opt_int, text_or_null, Fields, Json, JsonView};
use crate::media::clients::{
    library_content, map_library, map_reply, reply_content, setting, setting_view, Service,
};
use crate::media::clients::jellyseerr::JellyseerrClient;
use crate::media::clients::radarr::RadarrClient;
use crate::media::clients::sonarr::SonarrClient;
use crate::registry::{with_tool, InfoView, ToolInfo, ToolRegistry};
use crate::schema::{
    choice, choice_view, describe, described, described_view, no_texts, required_object,
    required_object_view, TextList,
};
use crate::text::{
    cat2, cat3, cat4, cat5, contains, dec, fmt_int, fmt_nat, has_substring, lowercase, opt_str,
    opt_text, owned, owned_opt, parse_int64, read_int64, same, to_lower, trim, trimmed,
};
use crate::tool::{answer, speak, spoken, Audit, AuditView, ErrorView, Step, StepView, ToolError};

verus! {

// ── tiers ───────────────────────────────────────────────────────────────────

/// What kind of thing a request asks for.
#[derive(Debug, Clone, Copy, PartialEq, Eq, Structural)]
pub enum RequestKind {
    /// A single film.
    Movie,
    /// A single, named season.
    Season,
    /// A whole series.
    Series,
}

/// Whether a request may be carried out at once.
#[derive(Debug, Clone, Copy, PartialEq, Eq, Structural)]
pub enum MutationTier {
    /// It may.
    Light,
    /// Only when it is confirmed.
    Confirm,
}

/// An item above this many bytes is oversized: 20 GiB.
pub const OVERSIZED_THRESHOLD_BYTES: u64 = 21_474_836_480;

/// A gibibyte.
pub const GB: u64 = 1_073_741_824;

/// The tier of a request: light only for a specific, single item of ordinary size that is not a
/// whole series.
pub open spec fn tier_of(
    kind: RequestKind,
    is_ambiguous: bool,
    item_count: u32,
    est_size_bytes: u64,
) -> MutationTier {
    if !is_ambiguous && item_count <= 1 && kind != RequestKind::Series && est_size_bytes
        <= OVERSIZED_THRESHOLD_BYTES {
        MutationTier::Light
    } else {
        MutationTier::Confirm
    }
}

/// Classifies a request as [`tier_of`] says.
pub fn classify_request(
    kind: RequestKind,
    is_ambiguous: bool,
    item_count: u32,
    est_size_bytes: u64,
) -> (r: MutationTier)
    ensures
        r == tier_of(kind, is_ambiguous, item_count, est_size_bytes),
{
    if is_ambiguous || item_count > 1 || kind == RequestKind::Series || est_size_bytes
        > OVERSIZED_THRESHOLD_BYTES {
        MutationTier::Confirm
    } else {
        MutationTier::Light
    }
}

/// The tier never gets lighter when a request grows in size or in number of items, or becomes
/// ambiguous.
pub proof fn tier_is_monotone(
    kind: RequestKind,
    a1: bool,
    a2: bool,
    n1: u32,
    n2: u32,
    s1: u64,
    s2: u64,
)
    requires
        a1 ==> a2,
        n1 <= n2,
        s1 <= s2,
        tier_of(kind, a1, n1, s1) == MutationTier::Confirm,
    ensures
        tier_of(kind, a2, n2, s2) == MutationTier::Confirm,
{
}

/// The size that a lowercased quality hint suggests.
pub open spec fn hinted_size(hint: Seq<char>) -> u64 {
    if has_substring(hint, "remux"@) || has_substring(hint, "2160p"@) || has_substring(hint, "4k"@) {
        26_843_545_600
    } else if has_substring(hint, "1080p"@) {
        4_294_967_296
    } else if has_substring(hint, "720p"@) {
        2_147_483_648
    } else {
        4_294_967_296
    }
}

/// Reads a lowercased quality hint as [`hinted_size`] says.
pub fn size_for_hint(hint: &str) -> (r: u64)
    ensures
        r == hinted_size(hint@),
{
    if contains(hint, "remux") || contains(hint, "2160p") || contains(hint, "4k") {
        25 * GB
    } else if contains(hint, "1080p") {
        4 * GB
    } else if contains(hint, "720p") {
        2 * GB
    } else {
        4 * GB
    }
}

/// The size of a request: the stated one, else what the quality hint suggests.
pub open spec fn estimated_size(explicit_bytes: Option<u64>, quality_hint: Option<Seq<char>>) -> u64 {
    match explicit_bytes {
        Some(bytes) => bytes,
        None => match quality_hint {
            Some(hint) => hinted_size(lowercase(hint)),
            None => hinted_size(""@),
        },
    }
}

/// Estimates a size as [`estimated_size`] says.
pub fn estimate_size_bytes(explicit_bytes: Option<u64>, quality_hint: Option<&str>) -> (r: u64)
    ensures
        r == estimated_size(explicit_bytes, opt_str(quality_hint)),
{
    if let Some(bytes) = explicit_bytes {
        return bytes;
    }
    match quality_hint {
        Some(hint) => {
            let lower = to_lower(hint);
            size_for_hint(lower.as_str())
        },
        None => size_for_hint(""),
    }
}

// ── the answer ──────────────────────────────────────────────────────────────

/// The name of a tier.
pub open spec fn tier_name_view(tier: MutationTier) -> Seq<char> {
    match tier {
        MutationTier::Light => "light"@,
        MutationTier::Confirm => "confirm"@,
    }
}

/// The name of a tier.
pub fn tier_name(tier: MutationTier) -> (r: &'static str)
    ensures
        r@ == tier_name_view(tier),
{
    match tier {
        MutationTier::Light => "light",
        MutationTier::Confirm => "confirm",
    }
}

/// What is asked for, in words.
pub open spec fn target_view(
    title: Seq<char>,
    media_type: Seq<char>,
    season: Option<int>,
) -> Seq<char> {
    if media_type == "series"@ {
        match season {
            Some(s) => title + " season "@ + dec(s),
            None => title + " (whole series)"@,
        }
    } else {
        title
    }
}

fn target(title: &str, media_type: &str, season: Option<i64>) -> (r: String)
    ensures
        r@ == target_view(title@, media_type@, opt_int(season)),
{
    if same(media_type, "series") {
        match season {
            Some(s) => {
                let n = fmt_int(s as i128);
                cat3(title, " season ", n.as_str())
            },
            None => cat2(title, " (whole series)"),
        }
    } else {
        owned(title)
    }
}

/// A text between a prefix and a suffix, or nothing where there is none.
pub open spec fn wrapped(prefix: Seq<char>, text: Option<Seq<char>>, suffix: Seq<char>) -> Seq<char> {
    match text {
        Some(t) => prefix + t + suffix,
        None => ""@,
    }
}

fn wrap(prefix: &str, text: Option<&str>, suffix: &str) -> (r: String)
    ensures
        r@ == wrapped(prefix@, opt_str(text), suffix@),
{
    match text {
        Some(t) => cat3(prefix, t, suffix),
        None => owned(""),
    }
}

/// What is said of a request. `size_gb` is its size in gibibytes, with one decimal.
pub open spec fn request_summary(
    title: Seq<char>,
    year: Option<Seq<char>>,
    media_type: Seq<char>,
    season: Option<int>,
    quality_hint: Option<Seq<char>>,
    size_gb: Seq<char>,
    tier: MutationTier,
    executed: bool,
    already_present: bool,
) -> Seq<char> {
    let target = target_view(title, media_type, season);
    if already_present {
        "\""@ + target + "\" is already in the library -- not requesting a duplicate."@
    } else if executed {
        "Grabbed \""@ + target + "\""@ + wrapped(" ("@, year, ")"@) + " (~"@ + size_gb
            + " GB) -- Radarr/Sonarr is searching indexers now."@
    } else {
        match tier {
            MutationTier::Confirm => "\""@ + target + "\""@ + wrapped(" ("@, year, ")"@) + " is ~"@
                + size_gb + " GB"@ + wrapped(" at "@, quality_hint, ""@)
                + " -- this needs confirmation before I grab it. Reply with confirm: true to proceed."@,
            MutationTier::Light => "\""@ + target + "\" is ready to request."@,
        }
    }
}

/// The answer to a request. `size_gb` is its size in gibibytes, with one decimal.
pub open spec fn request_answer(
    title: Seq<char>,
    year: Option<Seq<char>>,
    media_type: Seq<char>,
    season: Option<int>,
    quality_hint: Option<Seq<char>>,
    est_size_bytes: u64,
    size_gb: Seq<char>,
    tier: MutationTier,
    executed: bool,
    already_present: bool,
    outcome_note: Option<Seq<char>>,
) -> JsonView {
    spoken(
        request_summary(
            title,
            year,
            media_type,
            season,
            quality_hint,
            size_gb,
            tier,
            executed,
            already_present,
        ),
        JsonView::Object(
            no_fields().push(("title"@, JsonView::Str(title))).push(
                ("year"@, text_or_null(year)),
            ).push(("media_type"@, JsonView::Str(media_type))).push(
                ("season"@, int_or_null(season)),
            ).push(("quality_hint"@, text_or_null(quality_hint))).push(
                ("estimated_size_bytes"@, JsonView::Int(est_size_bytes as int)),
            ).push(("tier"@, JsonView::Str(tier_name_view(tier)))).push(
                ("executed"@, JsonView::Bool(executed)),
            ).push(("already_present"@, JsonView::Bool(already_present))).push(
                ("note"@, text_or_null(outcome_note)),
            ),
        ),
    )
}

/// Builds the answer to a request as [`request_answer`] says.
pub fn build_response(
    title: &str,
    year: Option<&str>,
    media_type: &str,
    season: Option<i64>,
    quality_hint: Option<&str>,
    est_size_bytes: u64,
    size_gb: &str,
    tier: MutationTier,
    executed: bool,
    already_present: bool,
    outcome_note: Option<&str>,
) -> (r: Json)
    ensures
        r@ == request_answer(
            title@,
            opt_str(year),
            media_type@,
            opt_int(season),
            opt_str(quality_hint),
            est_size_bytes,
            size_gb@,
            tier,
            executed,
            already_present,
            opt_str(outcome_note),
        ),
{
    let desc = target(title, media_type, season);
    let shown_year = wrap(" (", year, ")");
    let summary = if already_present {
        cat3("\"", desc.as_str(), "\" is already in the library -- not requesting a duplicate.")
    } else if executed {
        let head = cat4("Grabbed \"", desc.as_str(), "\"", shown_year.as_str());
        cat4(
            head.as_str(),
            " (~",
            size_gb,
            " GB) -- Radarr/Sonarr is searching indexers now.",
        )
    } else {
        match tier {
            MutationTier::Confirm => {
                let head = cat4("\"", desc.as_str(), "\"", shown_year.as_str());
                let size = cat4(head.as_str(), " is ~", size_gb, " GB");
                let quality = wrap(" at ", quality_hint, "");
                cat3(
                    size.as_str(),
                    quality.as_str(),
                    " -- this needs confirmation before I grab it. Reply with confirm: true to proceed.",
                )
            },
            MutationTier::Light => cat3("\"", desc.as_str(), "\" is ready to request."),
        }
    };
    let mut f = Fields::new();
    f.put("title", Json::text(title));
    f.put("year", Json::opt_text(year));
    f.put("media_type", Json::text(media_type));
    f.put("season", Json::opt_integer(season));
    f.put("quality_hint", Json::opt_text(quality_hint));
    f.put("estimated_size_bytes", Json::uint(est_size_bytes));
    f.put("tier", Json::text(tier_name(tier)));
    f.put("executed", Json::Bool(executed));
    f.put("already_present", Json::Bool(already_present));
    f.put("note", Json::opt_text(outcome_note));
    speak(summary.as_str(), f.object())
}

// ── reading a request ───────────────────────────────────────────────────────

/// Whether something is a film or a series.
#[derive(Debug, Clone, Copy, PartialEq, Eq, Structural)]
pub enum MediaType {
    Movie,
    Series,
}

impl MediaType {
    /// The name of this type.
    pub open spec fn name_view(self) -> Seq<char> {
        match self {
            MediaType::Movie => "movie"@,
            MediaType::Series => "series"@,
        }
    }

    /// The name of this type.
    pub fn name(self) -> (r: &'static str)
        ensures
            r@ == self.name_view(),
    {
        match self {
            MediaType::Movie => "movie",
            MediaType::Series => "series",
        }
    }

    /// The service that manages this type.
    pub open spec fn service_view(self) -> Service {
        match self {
            MediaType::Movie => Service::Radarr,
            MediaType::Series => Service::Sonarr,
        }
    }

    /// The service that manages this type.
    pub fn service(self) -> (r: Service)
        ensures
            r == self.service_view(),
    {
        match self {
            MediaType::Movie => Service::Radarr,
            MediaType::Series => Service::Sonarr,
        }
    }

    /// The error for the missing configuration of that service.
    pub open spec fn unconfigured_view(self) -> ErrorView {
        match self {
            MediaType::Movie => ErrorView::NotConfigured("RADARR_URL/RADARR_API_KEY not set"@),
            MediaType::Series => ErrorView::NotConfigured("SONARR_URL/SONARR_API_KEY not set"@),
        }
    }

    /// The error for the missing configuration of that service.
    pub fn unconfigured(self) -> (r: ToolError)
        ensures
            r@ == self.unconfigured_view(),
    {
        match self {
            MediaType::Movie => ToolError::not_configured("RADARR_URL/RADARR_API_KEY not set"),
            MediaType::Series => ToolError::not_configured("SONARR_URL/SONARR_API_KEY not set"),
        }
    }
}

/// The type that the arguments name.
pub open spec fn media_type_view(args: JsonView) -> Result<MediaType, ErrorView> {
    match args.text_at("media_type"@) {
        Some(t) => if t == "movie"@ {
            Ok(MediaType::Movie)
        } else if t == "series"@ {
            Ok(MediaType::Series)
        } else {
            Err(ErrorView::InvalidArgument("media_type must be \"movie\" or \"series\""@))
        },
        None => Err(ErrorView::InvalidArgument("media_type must be \"movie\" or \"series\""@)),
    }
}

/// Reads the type that the arguments name.
pub fn media_type_of(args: &Json) -> (r: Result<MediaType, ToolError>)
    ensures
        match r {
            Ok(t) => media_type_view(args@) == Ok::<MediaType, ErrorView>(t),
            Err(e) => media_type_view(args@) == Err::<MediaType, ErrorView>(e@),
        },
{
    let named = match args.str_at("media_type") {
        Some(t) => t,
        None => "",
    };
    proof {
        reveal_strlit("");
        reveal_strlit("movie");
        reveal_strlit("series");
        assert(""@.len() == 0);
        assert("movie"@.len() == 5);
        assert("series"@.len() == 6);
    }
    if same(named, "movie") {
        Ok(MediaType::Movie)
    } else if same(named, "series") {
        Ok(MediaType::Series)
    } else {
        Err(ToolError::invalid("media_type must be \"movie\" or \"series\""))
    }
}

/// The number of items that the arguments state: at least one, and at most what 32 bits hold. A
/// count that is too large stays large, so that it is never taken for a small request.
pub open spec fn item_count_view(args: JsonView) -> u32 {
    match args.at("item_count"@).uint64() {
        Some(n) => if n < 1 {
            1
        } else if n > u32::MAX {
            u32::MAX
        } else {
            n as u32
        },
        None => 1,
    }
}

/// Reads the number of items that the arguments state.
pub fn item_count_of(args: &Json) -> (r: u32)
    ensures
        r == item_count_view(args@),
{
    let stated: Option<u64> = match args.get("item_count") {
        Some(v) => v.as_u64(),
        None => None,
    };
    match stated {
        Some(n) => {
            if n < 1 {
                1
            } else if n > 0xffff_ffff {
                0xffff_ffff
            } else {
                n as u32
            }
        },
        None => 1,
    }
}

/// Whether a flag is set to `true`.
pub open spec fn is_set(args: JsonView, key: Seq<char>) -> bool {
    args.bool_at(key) == Some(true)
}

/// Reads whether a flag is set to `true`.
pub fn flag(args: &Json, key: &str) -> (r: bool)
    ensures
        r == is_set(args@, key@),
{
    match args.bool_at(key) {
        Some(b) => b,
        None => false,
    }
}

/// The kind of a request: a series without a season is the whole series.
pub open spec fn kind_view(media: MediaType, season: Option<int>) -> RequestKind {
    match (media, season) {
        (MediaType::Movie, _) => RequestKind::Movie,
        (MediaType::Series, Some(_)) => RequestKind::Season,
        (MediaType::Series, None) => RequestKind::Series,
    }
}

/// The kind of a request.
pub fn kind_of(media: MediaType, season: Option<i64>) -> (r: RequestKind)
    ensures
        r == kind_view(media, opt_int(season)),
{
    match (media, season) {
        (MediaType::Movie, _) => RequestKind::Movie,
        (MediaType::Series, Some(_)) => RequestKind::Season,
        (MediaType::Series, None) => RequestKind::Series,
    }
}

/// A request as it was read, with its size and its tier.
#[derive(Debug, PartialEq, Eq)]
pub struct RequestPlan {
    pub title: String,
    pub year: Option<String>,
    pub media: MediaType,
    pub tmdb_id: Option<i64>,
    pub tvdb_id: Option<i64>,
    pub season: Option<i64>,
    pub quality_hint: Option<String>,
    pub size: u64,
    pub tier: MutationTier,
    pub confirm: bool,
}

/// The content of a [`RequestPlan`].
pub struct PlanView {
    pub title: Seq<char>,
    pub year: Option<Seq<char>>,
    pub media: MediaType,
    pub tmdb_id: Option<int>,
    pub tvdb_id: Option<int>,
    pub season: Option<int>,
    pub quality_hint: Option<Seq<char>>,
    pub size: u64,
    pub tier: MutationTier,
    pub confirm: bool,
}

impl View for RequestPlan {
    type V = PlanView;

    open spec fn view(&self) -> PlanView {
        PlanView {
            title: self.title@,
            year: opt_text(self.year),
            media: self.media,
            tmdb_id: opt_int(self.tmdb_id),
            tvdb_id: opt_int(self.tvdb_id),
            season: opt_int(self.season),
            quality_hint: opt_text(self.quality_hint),
            size: self.size,
            tier: self.tier,
            confirm: self.confirm,
        }
    }
}

/// The size that the arguments state.
pub open spec fn stated_size(args: JsonView) -> Option<u64> {
    match args.at("size_estimate_bytes"@).uint64() {
        Some(n) => Some(n as u64),
        None => None,
    }
}

/// What the arguments of a request ask for.
pub open spec fn plan_of(args: JsonView) -> Result<PlanView, ErrorView> {
    let title = match args.text_at("title"@) {
        Some(t) => trimmed(t),
        None => Seq::empty(),
    };
    if title.len() == 0 {
        Err(ErrorView::InvalidArgument("title must not be empty"@))
    } else {
        match media_type_view(args) {
            Err(e) => Err(e),
            Ok(media) => {
                let season = args.int_at("season"@);
                let size = estimated_size(stated_size(args), args.text_at("quality_hint"@));
                Ok(
                    PlanView {
                        title,
                        year: args.text_at("year"@),
                        media,
                        tmdb_id: args.int_at("tmdb_id"@),
                        tvdb_id: args.int_at("tvdb_id"@),
                        season,
                        quality_hint: args.text_at("quality_hint"@),
                        size,
                        tier: tier_of(
                            kind_view(media, season),
                            is_set(args, "is_ambiguous"@),
                            item_count_view(args),
                            size,
                        ),
                        confirm: is_set(args, "confirm"@),
                    },
                )
            },
        }
    }
}

/// The content of a plan's result.
pub open spec fn planned(r: Result<RequestPlan, ToolError>) -> Result<PlanView, ErrorView> {
    match r {
        Ok(p) => Ok(p@),
        Err(e) => Err(e@),
    }
}

/// Reads the arguments of a request as [`plan_of`] says.
pub fn plan(args: &Json) -> (r: Result<RequestPlan, ToolError>)
    ensures
        planned(r) == plan_of(args@),
{
    let title = match args.str_at("title") {
        Some(t) => trim(t),
        None => "",
    };
    proof {
        reveal_strlit("");
        assert(""@.len() == 0);
    }
    if title.is_empty() {
        return Err(ToolError::invalid("title must not be empty"));
    }
    let media = match media_type_of(args) {
        Ok(m) => m,
        Err(e) => {
            return Err(e);
        },
    };
    let season = args.int_at("season");
    let quality_hint = args.str_at("quality_hint");
    let explicit: Option<u64> = match args.get("size_estimate_bytes") {
        Some(v) => v.as_u64(),
        None => None,
    };
    assert(explicit == stated_size(args@));
    let size = estimate_size_bytes(explicit, quality_hint);
    let tier = classify_request(
        kind_of(media, season),
        flag(args, "is_ambiguous"),
        item_count_of(args),
        size,
    );
    Ok(
        RequestPlan {
            title: owned(title),
            year: owned_opt(args.str_at("year")),
            media,
            tmdb_id: args.int_at("tmdb_id"),
            tvdb_id: args.int_at("tvdb_id"),
            season,
            quality_hint: owned_opt(quality_hint),
            size,
            tier,
            confirm: flag(args, "confirm"),
        },
    )
}

// ── carrying out a request ──────────────────────────────────────────────────

/// A quality profile id out of its configured value.
pub open spec fn profile_view(name: Seq<char>, raw: Option<Seq<char>>) -> Result<int, ErrorView> {
    let missing = ErrorView::NotConfigured(name + " not set (or not a valid integer)"@);
    match raw {
        Some(s) => match parse_int64(trimmed(s)) {
            Some(n) => Ok(n),
            None => Err(missing),
        },
        None => Err(missing),
    }
}

/// Reads a quality profile id as [`profile_view`] says; `raw` is the value of the variable `name`.
pub fn quality_profile_id(name: &str, raw: Option<&str>) -> (r: Result<i64, ToolError>)
    ensures
        match r {
            Ok(n) => profile_view(name@, opt_str(raw)) == Ok::<int, ErrorView>(n as int),
            Err(e) => profile_view(name@, opt_str(raw)) == Err::<int, ErrorView>(e@),
        },
{
    let read: Option<i64> = match raw {
        Some(s) => read_int64(trim(s)),
        None => None,
    };
    match read {
        Some(n) => Ok(n),
        None => Err(ToolError::NotConfigured(cat2(name, " not set (or not a valid integer)"))),
    }
}

/// A root folder out of its configured value.
pub open spec fn folder_view(name: Seq<char>, raw: Option<Seq<char>>) -> Result<
    Seq<char>,
    ErrorView,
> {
    match setting_view(raw) {
        Some(s) => Ok(s),
        None => Err(ErrorView::NotConfigured(name + " not set"@)),
    }
}

/// Reads a root folder as [`folder_view`] says; `raw` is the value of the variable `name`.
pub fn root_folder_path(name: &str, raw: Option<&str>) -> (r: Result<String, ToolError>)
    ensures
        match r {
            Ok(s) => folder_view(name@, opt_str(raw)) == Ok::<Seq<char>, ErrorView>(s@),
            Err(e) => folder_view(name@, opt_str(raw)) == Err::<Seq<char>, ErrorView>(e@),
        },
{
    match setting(raw) {
        Some(s) => Ok(s),
        None => Err(ToolError::NotConfigured(cat2(name, " not set"))),
    }
}

/// The title of a library item, or its name, or nothing.
pub open spec fn item_name(item: JsonView) -> Seq<char> {
    match item.text_at("title"@) {
        Some(t) => t,
        None => match item.text_at("name"@) {
            Some(n) => n,
            None => ""@,
        },
    }
}

/// The title of a library item, or its name, or nothing.
pub fn name_of(item: &Json) -> (r: &str)
    ensures
        r@ == item_name(item@),
{
    match item.str_at("title") {
        Some(t) => t,
        None => match item.str_at("name") {
            Some(n) => n,
            None => "",
        },
    }
}

/// Whether a title is in a library, whatever its letter case: as the name of an item, or within one.
pub open spec fn is_present(items: Seq<JsonView>, title: Seq<char>) -> bool {
    let needle = lowercase(trimmed(title));
    needle.len() > 0 && exists|i: int|
        0 <= i < items.len() && has_substring(lowercase(item_name(#[trigger] items[i])), needle)
}

/// Looks for a title in a library as [`is_present`] says.
pub fn already_present(items: &Vec<Json>, title: &str) -> (r: bool)
    ensures
        r == is_present(jsons(items@), title@),
{
    let needle = to_lower(trim(title));
    if needle.as_str().is_empty() {
        return false;
    }
    let ghost view = jsons(items@);
    let mut i: usize = 0;
    while i < items.len()
        invariant
            i <= items.len(),
            view == jsons(items@),
            needle@ == lowercase(trimmed(title@)),
            needle@.len() > 0,
            forall|k: int|
                0 <= k < i ==> !has_substring(lowercase(item_name(#[trigger] view[k])), needle@),
        decreases items.len() - i,
    {
        assert(view[i as int] == items@[i as int]@);
        let name = to_lower(name_of(&items[i]));
        if contains(name.as_str(), needle.as_str()) {
            return true;
        }
        i += 1;
    }
    false
}

impl PlanView {
    /// The id under which the managing service knows the title.
    pub open spec fn id(self) -> Option<int> {
        match self.media {
            MediaType::Movie => self.tmdb_id,
            MediaType::Series => self.tvdb_id,
        }
    }

    /// The answer to this request.
    pub open spec fn answer(self, size_gb: Seq<char>, executed: bool, present: bool) -> JsonView {
        request_answer(
            self.title,
            self.year,
            self.media.name_view(),
            self.season,
            self.quality_hint,
            self.size,
            size_gb,
            self.tier,
            executed,
            present,
            None,
        )
    }

    /// The step for a request that failed.
    pub open spec fn failed(self, error: ErrorView) -> StepView {
        StepView::Failed(
            error,
            Some(
                AuditView {
                    tool: "media_request"@,
                    success: false,
                    detail: "media_request failed: title="@ + self.title + " media_type="@
                        + self.media.name_view() + " error="@ + error.message(),
                },
            ),
        )
    }

    /// The error for a missing id.
    pub open spec fn missing_id(self) -> ErrorView {
        match self.media {
            MediaType::Movie => ErrorView::InvalidArgument(
                "tmdb_id is required to add a movie (resolve via media_search first)"@,
            ),
            MediaType::Series => ErrorView::InvalidArgument(
                "tvdb_id is required to add a series (resolve via media_search first)"@,
            ),
        }
    }

    /// What is sent to add the title.
    pub open spec fn body(self, id: int, profile: int, folder: Seq<char>) -> JsonView {
        let common = no_fields().push(
            (
                if self.media == MediaType::Movie {
                    "tmdbId"@
                } else {
                    "tvdbId"@
                },
                JsonView::Int(id),
            ),
        ).push(("title"@, JsonView::Str(self.title))).push(
            ("qualityProfileId"@, JsonView::Int(profile)),
        ).push(("rootFolderPath"@, JsonView::Str(folder))).push(
            ("monitored"@, JsonView::Bool(true)),
        ).push(
            (
                "addOptions"@,
                JsonView::Object(
                    no_fields().push(
                        (
                            if self.media == MediaType::Movie {
                                "searchForMovie"@
                            } else {
                                "searchForMissingEpisodes"@
                            },
                            JsonView::Bool(true),
                        ),
                    ),
                ),
            ),
        );
        JsonView::Object(
            match self.media {
                MediaType::Movie => match self.year {
                    Some(y) => match parse_int64(y) {
                        Some(n) => common.push(("year"@, JsonView::Int(n))),
                        None => common,
                    },
                    None => common,
                },
                MediaType::Series => match self.season {
                    Some(s) => common.push(
                        (
                            "seasons"@,
                            JsonView::Array(
                                seq![
                                    JsonView::Object(
                                        no_fields().push(("seasonNumber"@, JsonView::Int(s))).push(
                                            ("monitored"@, JsonView::Bool(true)),
                                        ),
                                    ),
                                ],
                            ),
                        ),
                    ),
                    None => common,
                },
            },
        )
    }

    /// What is sent to have the request tracked.
    pub open spec fn tracking_body(self, id: int) -> JsonView {
        match self.media {
            MediaType::Movie => JsonView::Object(
                no_fields().push(("mediaType"@, JsonView::Str("movie"@))).push(
                    ("mediaId"@, JsonView::Int(id)),
                ),
            ),
            MediaType::Series => JsonView::Object(
                no_fields().push(("mediaType"@, JsonView::Str("tv"@))).push(
                    ("mediaId"@, JsonView::Int(id)),
                ).push(
                    (
                        "seasons"@,
                        match self.season {
                            Some(s) => JsonView::Array(seq![JsonView::Int(s)]),
                            None => JsonView::Null,
                        },
                    ),
                ),
            ),
        }
    }

    /// The record of a request that was carried out.
    pub open spec fn executed_audit(self) -> AuditView {
        AuditView {
            tool: "media_request"@,
            success: true,
            detail: "media_request executed: title="@ + self.title + " media_type="@
                + self.media.name_view() + " season="@ + (match self.season {
                Some(s) => "Some("@ + dec(s) + ")"@,
                None => "None"@,
            }) + " tier="@ + (match self.tier {
                MutationTier::Light => "Light"@,
                MutationTier::Confirm => "Confirm"@,
            }) + " size_bytes="@ + dec(self.size as int),
        }
    }
}

/// An array of one item.
fn single(item: Json) -> (r: Json)
    ensures
        r@ == JsonView::Array(seq![item@]),
{
    let mut v: Vec<Json> = Vec::new();
    v.push(item);
    assert(jsons(v@) =~= seq![item@]);
    Json::array(v)
}

fn str_of(s: &Option<String>) -> (r: Option<&str>)
    ensures
        opt_str(r) == opt_text(*s),
{
    match s {
        Some(x) => Some(x.as_str()),
        None => None,
    }
}

impl RequestPlan {
    /// The id under which the managing service knows the title.
    pub fn id(&self) -> (r: Option<i64>)
        ensures
            opt_int(r) == self@.id(),
    {
        match self.media {
            MediaType::Movie => self.tmdb_id,
            MediaType::Series => self.tvdb_id,
        }
    }

    fn answer(&self, size_gb: &str, executed: bool, present: bool) -> (r: Json)
        ensures
            r@ == self@.answer(size_gb@, executed, present),
    {
        build_response(
            self.title.as_str(),
            str_of(&self.year),
            self.media.name(),
            self.season,
            str_of(&self.quality_hint),
            self.size,
            size_gb,
            self.tier,
            executed,
            present,
            None,
        )
    }

    fn failed(&self, error: ToolError) -> (r: Step)
        ensures
            r@ == self@.failed(error@),
    {
        let head = cat4(
            "media_request failed: title=",
            self.title.as_str(),
            " media_type=",
            self.media.name(),
        );
        let detail = cat3(head.as_str(), " error=", error.message());
        Step::Failed(error, Some(Audit { tool: owned("media_request"), success: false, detail }))
    }

    fn missing_id(&self) -> (r: ToolError)
        ensures
            r@ == self@.missing_id(),
    {
        match self.media {
            MediaType::Movie => ToolError::invalid(
                "tmdb_id is required to add a movie (resolve via media_search first)",
            ),
            MediaType::Series => ToolError::invalid(
                "tvdb_id is required to add a series (resolve via media_search first)",
            ),
        }
    }

    fn body(&self, id: i64, profile: i64, folder: &str) -> (r: Json)
        ensures
            r@ == self@.body(id as int, profile as int, folder@),
    {
        let movie = self.media == MediaType::Movie;
        let mut options = Fields::new();
        options.put(
            if movie {
                "searchForMovie"
            } else {
                "searchForMissingEpisodes"
            },
            Json::Bool(true),
        );
        let mut f = Fields::new();
        f.put(
            if movie {
                "tmdbId"
            } else {
                "tvdbId"
            },
            Json::integer(id),
        );
        f.put("title", Json::text(self.title.as_str()));
        f.put("qualityProfileId", Json::integer(profile));
        f.put("rootFolderPath", Json::text(folder));
        f.put("monitored", Json::Bool(true));
        f.put("addOptions", options.object());
        match self.media {
            MediaType::Movie => {
                if let Some(y) = &self.year {
                    if let Some(n) = read_int64(y.as_str()) {
                        f.put("year", Json::integer(n));
                    }
                }
            },
            MediaType::Series => {
                if let Some(s) = self.season {
                    let mut season = Fields::new();
                    season.put("seasonNumber", Json::integer(s));
                    season.put("monitored", Json::Bool(true));
                    f.put("seasons", single(season.object()));
                }
            },
        }
        f.object()
    }

    fn tracking_body(&self, id: i64) -> (r: Json)
        ensures
            r@ == self@.tracking_body(id as int),
    {
        let mut f = Fields::new();
        match self.media {
            MediaType::Movie => {
                f.put("mediaType", Json::text("movie"));
                f.put("mediaId", Json::integer(id));
            },
            MediaType::Series => {
                f.put("mediaType", Json::text("tv"));
                f.put("mediaId", Json::integer(id));
                f.put(
                    "seasons",
                    match self.season {
                        Some(s) => single(Json::integer(s)),
                        None => Json::Null,
                    },
                );
            },
        }
        f.object()
    }

    fn executed_audit(&self) -> (r: Audit)
        ensures
            r@ == self@.executed_audit(),
    {
        let head = cat4(
            "media_request executed: title=",
            self.title.as_str(),
            " media_type=",
            self.media.name(),
        );
        let season = match self.season {
            Some(s) => {
                let n = fmt_int(s as i128);
                cat3("Some(", n.as_str(), ")")
            },
            None => owned("None"),
        };
        let tier = match self.tier {
            MutationTier::Light => "Light",
            MutationTier::Confirm => "Confirm",
        };
        let size = fmt_nat(self.size as u128);
        let middle = cat5(head.as_str(), " season=", season.as_str(), " tier=", tier);
        let detail = cat3(middle.as_str(), " size_bytes=", size.as_str());
        Audit { tool: owned("media_request"), success: true, detail }
    }
}

/// The request tool and the services it uses.
#[derive(Debug)]
pub struct MediaRequest {
    pub radarr: Option<RadarrClient>,
    pub sonarr: Option<SonarrClient>,
    pub jellyseerr: Option<JellyseerrClient>,
}

/// The configured values that adding a title takes, as they stand for the managing service.
#[derive(Debug)]
pub struct AddSettings {
    pub quality_profile: Option<String>,
    pub root_folder: Option<String>,
}

/// The name of the variable that holds the quality profile.
pub open spec fn profile_variable(media: MediaType) -> Seq<char> {
    match media {
        MediaType::Movie => "RADARR_QUALITY_PROFILE_ID"@,
        MediaType::Series => "SONARR_QUALITY_PROFILE_ID"@,
    }
}

/// The name of the variable that holds the root folder.
pub open spec fn folder_variable(media: MediaType) -> Seq<char> {
    match media {
        MediaType::Movie => "RADARR_ROOT_FOLDER_PATH"@,
        MediaType::Series => "SONARR_ROOT_FOLDER_PATH"@,
    }
}

/// The request for the library that manages a type.
pub open spec fn library_request(
    radarr: Option<RadarrClient>,
    sonarr: Option<SonarrClient>,
    media: MediaType,
) -> Option<RequestView> {
    match media {
        MediaType::Movie => match radarr {
            Some(c) => Some(c.call_view(Method::Get, "/api/v3/movie"@)),
            None => None,
        },
        MediaType::Series => match sonarr {
            Some(c) => Some(c.call_view(Method::Get, "/api/v3/series"@)),
            None => None,
        },
    }
}

/// Makes the request for the library that manages a type as [`library_request`] says.
pub fn ask_for_library(
    radarr: &Option<RadarrClient>,
    sonarr: &Option<SonarrClient>,
    media: MediaType,
) -> (r: Option<HttpRequest>)
    ensures
        opt_request(r) == library_request(*radarr, *sonarr, media),
{
    match media {
        MediaType::Movie => match radarr {
            Some(c) => Some(c.library()),
            None => None,
        },
        MediaType::Series => match sonarr {
            Some(c) => Some(c.library()),
            None => None,
        },
    }
}

impl MediaRequest {
    /// The request that adds a title to the library that manages its type.
    pub open spec fn add_view(&self, media: MediaType, body: JsonView) -> Option<RequestView> {
        match media {
            MediaType::Movie => match self.radarr {
                Some(c) => Some(c.call_view(Method::Post, "/api/v3/movie"@).json(body)),
                None => None,
            },
            MediaType::Series => match self.sonarr {
                Some(c) => Some(c.call_view(Method::Post, "/api/v3/series"@).json(body)),
                None => None,
            },
        }
    }

    /// The first step: a request that needs confirmation and has none is only answered; any other
    /// first looks at the library.
    pub open spec fn start_view(&self, plan: PlanView, size_gb: Seq<char>) -> StepView {
        if plan.tier == MutationTier::Confirm && !plan.confirm {
            StepView::Done(plan.answer(size_gb, false, false), None)
        } else {
            match library_request(self.radarr, self.sonarr, plan.media) {
                Some(request) => StepView::Send(request),
                None => plan.failed(plan.media.unconfigured_view()),
            }
        }
    }

    /// Takes the first step as [`Self::start_view`] says. `size_gb` is the plan's size in
    /// gibibytes, with one decimal.
    pub fn start(&self, plan: &RequestPlan, size_gb: &str) -> (r: Step)
        ensures
            r@ == self.start_view(plan@, size_gb@),
    {
        if plan.tier == MutationTier::Confirm && !plan.confirm {
            return Step::Done(plan.answer(size_gb, false, false), None);
        }
        match ask_for_library(&self.radarr, &self.sonarr, plan.media) {
            Some(request) => Step::Send(request),
            None => plan.failed(plan.media.unconfigured()),
        }
    }

    /// The step after the library was listed: a title that is there is not requested again; any
    /// other is added, where everything that takes is known.
    pub open spec fn on_listed_view(
        &self,
        plan: PlanView,
        quality_profile: Option<Seq<char>>,
        root_folder: Option<Seq<char>>,
        size_gb: Seq<char>,
        items: Seq<JsonView>,
    ) -> StepView {
        if is_present(items, plan.title) {
            StepView::Done(plan.answer(size_gb, false, true), None)
        } else {
            match profile_view(profile_variable(plan.media), quality_profile) {
                Err(e) => plan.failed(e),
                Ok(profile) => match folder_view(folder_variable(plan.media), root_folder) {
                    Err(e) => plan.failed(e),
                    Ok(folder) => match plan.id() {
                        None => plan.failed(plan.missing_id()),
                        Some(id) => match self.add_view(
                            plan.media,
                            plan.body(id, profile, folder),
                        ) {
                            Some(request) => StepView::Send(request),
                            None => plan.failed(plan.media.unconfigured_view()),
                        },
                    },
                },
            }
        }
    }

    /// Takes the step after the library was listed as [`Self::on_listed_view`] says.
    pub fn on_listed(
        &self,
        plan: &RequestPlan,
        settings: &AddSettings,
        size_gb: &str,
        items: &Vec<Json>,
    ) -> (r: Step)
        ensures
            r@ == self.on_listed_view(
                plan@,
                opt_text(settings.quality_profile),
                opt_text(settings.root_folder),
                size_gb@,
                jsons(items@),
            ),
    {
        if already_present(items, plan.title.as_str()) {
            return Step::Done(plan.answer(size_gb, false, true), None);
        }
        let (profile_name, folder_name) = match plan.media {
            MediaType::Movie => ("RADARR_QUALITY_PROFILE_ID", "RADARR_ROOT_FOLDER_PATH"),
            MediaType::Series => ("SONARR_QUALITY_PROFILE_ID", "SONARR_ROOT_FOLDER_PATH"),
        };
        let profile: i64 = match quality_profile_id(
            profile_name,
            str_of(&settings.quality_profile),
        ) {
            Ok(n) => n,
            Err(e) => {
                return plan.failed(e);
            },
        };
        let folder = match root_folder_path(folder_name, str_of(&settings.root_folder)) {
            Ok(s) => s,
            Err(e) => {
                return plan.failed(e);
            },
        };
        let id: i64 = match plan.id() {
            Some(n) => n,
            None => {
                return plan.failed(plan.missing_id());
            },
        };
        let body = plan.body(id, profile, folder.as_str());
        match plan.media {
            MediaType::Movie => match &self.radarr {
                Some(c) => Step::Send(c.add_movie(body)),
                None => plan.failed(plan.media.unconfigured()),
            },
            MediaType::Series => match &self.sonarr {
                Some(c) => Step::Send(c.add_series(body)),
                None => plan.failed(plan.media.unconfigured()),
            },
        }
    }

    /// The request by which a title is followed, where tracking is configured.
    pub open spec fn tracking_view(&self, plan: PlanView) -> Option<RequestView> {
        match (self.jellyseerr, plan.id()) {
            (Some(c), Some(id)) => Some(
                c.call_view(Method::Post, "/api/v1/request"@).json(plan.tracking_body(id)),
            ),
            _ => None,
        }
    }

    /// The step after the title was added, or not: success is reported, recorded and passed on to
    /// tracking only where the service took the title. `tracking_sent` says whether the latter was
    /// done.
    pub open spec fn on_added_view(
        &self,
        plan: PlanView,
        size_gb: Seq<char>,
        added: Result<JsonView, ErrorView>,
        tracking_sent: bool,
    ) -> StepView {
        match added {
            Err(e) => plan.failed(e),
            Ok(_) => match self.tracking_view(plan) {
                Some(request) if !tracking_sent => StepView::Send(request),
                _ => StepView::Done(
                    plan.answer(size_gb, true, false),
                    Some(plan.executed_audit()),
                ),
            },
        }
    }

    /// Takes the step after the title was added, or not, as [`Self::on_added_view`] says.
    pub fn on_added(
        &self,
        plan: &RequestPlan,
        size_gb: &str,
        added: Result<Json, ToolError>,
        tracking_sent: bool,
    ) -> (r: Step)
        ensures
            r@ == self.on_added_view(plan@, size_gb@, answer(added), tracking_sent),
    {
        if let Err(e) = added {
            return plan.failed(e);
        }
        match (&self.jellyseerr, plan.id()) {
            (Some(c), Some(id)) if !tracking_sent => Step::Send(
                c.create_request(plan.tracking_body(id)),
            ),
            _ => Step::Done(plan.answer(size_gb, true, false), Some(plan.executed_audit())),
        }
    }
}

impl MediaRequest {
    /// Where a request stands after some replies, each to the request of the step before.
    pub open spec fn run_view(
        &self,
        plan: PlanView,
        quality_profile: Option<Seq<char>>,
        root_folder: Option<Seq<char>>,
        size_gb: Seq<char>,
        replies: Seq<ReplyView>,
    ) -> StepView {
        let first = self.start_view(plan, size_gb);
        if !(first is Send) || replies.len() == 0 {
            first
        } else {
            let second = self.on_listed_view(
                plan,
                quality_profile,
                root_folder,
                size_gb,
                library_content(plan.media.service_view(), replies[0]),
            );
            if !(second is Send) || replies.len() == 1 {
                second
            } else {
                self.on_added_view(
                    plan,
                    size_gb,
                    reply_content(plan.media.service_view(), replies[1]),
                    replies.len() > 2,
                )
            }
        }
    }

    /// Where a call stands after some replies.
    pub open spec fn execute_view(
        &self,
        args: JsonView,
        quality_profile: Option<Seq<char>>,
        root_folder: Option<Seq<char>>,
        size_gb: Seq<char>,
        replies: Seq<ReplyView>,
    ) -> StepView {
        match plan_of(args) {
            Err(e) => StepView::Failed(e, None),
            Ok(plan) => self.run_view(plan, quality_profile, root_folder, size_gb, replies),
        }
    }

    /// Carries a call on to its next step as [`Self::execute_view`] says. `size_gb` is the size of
    /// the call's plan in gibibytes, with one decimal; `replies` are those that came so far.
    pub fn execute(
        &self,
        args: &Json,
        settings: &AddSettings,
        size_gb: &str,
        replies: &Vec<HttpReply>,
    ) -> (r: Step)
        ensures
            r@ == self.execute_view(
                args@,
                opt_text(settings.quality_profile),
                opt_text(settings.root_folder),
                size_gb@,
                replies_view(replies@),
            ),
    {
        let plan = match plan(args) {
            Ok(p) => p,
            Err(e) => {
                return Step::Failed(e, None);
            },
        };
        let first = self.start(&plan, size_gb);
        if !first.is_send() || replies.len() == 0 {
            return first;
        }
        let items = map_library(plan.media.service(), &replies[0]);
        let second = self.on_listed(&plan, settings, size_gb, &items);
        if !second.is_send() || replies.len() == 1 {
            return second;
        }
        let added = map_reply(plan.media.service(), &replies[1]);
        self.on_added(&plan, size_gb, added, replies.len() > 2)
    }
}

/// A request that needs confirmation and has none sends nothing and records nothing, whatever is
/// configured and whatever a service might say.
pub proof fn unconfirmed_request_only_answers(
    tool: MediaRequest,
    args: JsonView,
    plan: PlanView,
    quality_profile: Option<Seq<char>>,
    root_folder: Option<Seq<char>>,
    size_gb: Seq<char>,
    replies: Seq<ReplyView>,
)
    requires
        plan_of(args) == Ok::<PlanView, ErrorView>(plan),
        plan.tier == MutationTier::Confirm,
        !plan.confirm,
    ensures
        tool.execute_view(args, quality_profile, root_folder, size_gb, replies) == StepView::Done(
            plan.answer(size_gb, false, false),
            None,
        ),
{
}

/// A title that is already in the library is never added again: the listing ends the call, whatever
/// is configured and whatever comes after it.
pub proof fn present_title_is_not_added(
    tool: MediaRequest,
    plan: PlanView,
    quality_profile: Option<Seq<char>>,
    root_folder: Option<Seq<char>>,
    size_gb: Seq<char>,
    replies: Seq<ReplyView>,
)
    requires
        replies.len() > 0,
        is_present(library_content(plan.media.service_view(), replies[0]), plan.title),
    ensures
        !(tool.run_view(plan, quality_profile, root_folder, size_gb, replies) is Send),
{
}

/// Something is only ever posted for a request that may be carried out and whose title the library
/// does not hold.
pub proof fn additions_are_cleared_and_new(
    tool: MediaRequest,
    plan: PlanView,
    quality_profile: Option<Seq<char>>,
    root_folder: Option<Seq<char>>,
    size_gb: Seq<char>,
    replies: Seq<ReplyView>,
)
    ensures
        tool.run_view(plan, quality_profile, root_folder, size_gb, replies) matches StepView::Send(
            request,
        ) ==> request.method == Method::Post ==> {
            &&& plan.tier == MutationTier::Light || plan.confirm
            &&& replies.len() > 0
            &&& !is_present(library_content(plan.media.service_view(), replies[0]), plan.title)
        },
{
}

/// A request is recorded as carried out only where the service took the title; its refusal is
/// passed on as a failure.
pub proof fn success_is_the_services_word(
    tool: MediaRequest,
    plan: PlanView,
    quality_profile: Option<Seq<char>>,
    root_folder: Option<Seq<char>>,
    size_gb: Seq<char>,
    replies: Seq<ReplyView>,
)
    ensures
        tool.run_view(plan, quality_profile, root_folder, size_gb, replies) matches StepView::Done(
            _,
            audit,
        ) ==> audit is Some ==> {
            &&& replies.len() > 1
            &&& reply_content(plan.media.service_view(), replies[1]) is Ok
        },
        tool.run_view(plan, quality_profile, root_folder, size_gb, replies.take(1)) is Send
            && replies.len() > 1 ==> (reply_content(plan.media.service_view(), replies[1])
            matches Err(e) ==> tool.run_view(
            plan,
            quality_profile,
            root_folder,
            size_gb,
            replies,
        ) == plan.failed(e)),
{
    if replies.len() > 1 {
        assert(replies.take(1)[0] == replies[0]);
    }
}

/// Whether a title could be tracked changes nothing about what the call comes to.
pub proof fn tracking_never_fails_a_request(
    tool: MediaRequest,
    plan: PlanView,
    quality_profile: Option<Seq<char>>,
    root_folder: Option<Seq<char>>,
    size_gb: Seq<char>,
    replies: Seq<ReplyView>,
    other: ReplyView,
)
    requires
        replies.len() == 3,
    ensures
        tool.run_view(plan, quality_profile, root_folder, size_gb, replies) == tool.run_view(
            plan,
            quality_profile,
            root_folder,
            size_gb,
            replies.update(2, other),
        ),
{
}

// ── registration ────────────────────────────────────────────────────────────

/// What the request tool says about itself.
pub open spec fn request_info() -> InfoView {
    InfoView {
        name: "media_request"@,
        description: "Request/download a movie (Radarr) or TV season/series (Sonarr), which drives the download client. Uses tiered mutation safety: a specific, unambiguous, single item under the size threshold is grabbed immediately; anything ambiguous, bulk (multiple items), a whole series, or an oversized single item (e.g. a 4K remux) returns a confirmation payload with title/year/size/quality instead of executing, and requires a follow-up call with confirm: true. Never silently requests something already in the library."@,
        parameters: required_object_view(
            no_fields()
                .push(("title"@, described_view("string"@, "Resolved title, e.g. from media_search."@)))
                .push(("media_type"@, choice_view(no_texts().push("movie"@).push("series"@))))
                .push(("year"@, described_view("string"@, "Release year, if known."@)))
                .push(("tmdb_id"@, described_view("integer"@, "TMDb id (movies) from media_search."@)))
                .push(("tvdb_id"@, described_view("integer"@, "TVDb id (series) -- Sonarr's id space, distinct from TMDb."@)))
                .push(("season"@, described_view("integer"@, "A specific season number. Omit for series to mean 'the whole series' (always Confirm-tier)."@)))
                .push(("quality_hint"@, described_view("string"@, "e.g. '2160p remux', '1080p' -- used to estimate size when size_estimate_bytes isn't given."@)))
                .push(("size_estimate_bytes"@, described_view("integer"@, "Known/estimated download size in bytes, if available."@)))
                .push(("item_count"@, described_view("integer"@, "How many discrete items this single call would grab (e.g. requesting 3 seasons at once). Defaults to 1; >1 is always Confirm-tier."@)))
                .push(("is_ambiguous"@, described_view("boolean"@, "True if the title/candidate itself is not definitively resolved (e.g. media_search returned multiple close candidates and none was chosen). Defaults to false."@)))
                .push(("confirm"@, described_view("boolean"@, "Must be true to execute a Confirm-tier request. Ignored (and unnecessary) for Light-tier requests."@))),
            no_texts().push("title"@).push("media_type"@),
        ),
    }
}

impl MediaRequest {
    /// What this tool says about itself.
    pub fn info() -> (r: ToolInfo)
        ensures
            r@ == request_info(),
    {
        let parameters = required_object(
            Fields::new()
                .with("title", described("string", "Resolved title, e.g. from media_search."))
                .with("media_type", choice(TextList::new().with("movie").with("series")))
                .with("year", described("string", "Release year, if known."))
                .with("tmdb_id", described("integer", "TMDb id (movies) from media_search."))
                .with("tvdb_id", described("integer", "TVDb id (series) -- Sonarr's id space, distinct from TMDb."))
                .with("season", described("integer", "A specific season number. Omit for series to mean 'the whole series' (always Confirm-tier)."))
                .with("quality_hint", described("string", "e.g. '2160p remux', '1080p' -- used to estimate size when size_estimate_bytes isn't given."))
                .with("size_estimate_bytes", described("integer", "Known/estimated download size in bytes, if available."))
                .with("item_count", described("integer", "How many discrete items this single call would grab (e.g. requesting 3 seasons at once). Defaults to 1; >1 is always Confirm-tier."))
                .with("is_ambiguous", described("boolean", "True if the title/candidate itself is not definitively resolved (e.g. media_search returned multiple close candidates and none was chosen). Defaults to false."))
                .with("confirm", described("boolean", "Must be true to execute a Confirm-tier request. Ignored (and unnecessary) for Light-tier requests.")),
            TextList::new().with("title").with("media_type"),
        );
        describe(
            "media_request",
            "Request/download a movie (Radarr) or TV season/series (Sonarr), which drives the download client. Uses tiered mutation safety: a specific, unambiguous, single item under the size threshold is grabbed immediately; anything ambiguous, bulk (multiple items), a whole series, or an oversized single item (e.g. a 4K remux) returns a confirmation payload with title/year/size/quality instead of executing, and requires a follow-up call with confirm: true. Never silently requests something already in the library.",
            parameters,
        )
    }
}

/// Offers the request tool.
pub fn register(registry: &mut ToolRegistry)
    ensures
        final(registry)@ == with_tool(old(registry)@, request_info()),
{
    registry.register_or_replace(MediaRequest::info());
}

} // verus!
