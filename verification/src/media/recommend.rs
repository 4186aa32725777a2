//! Recommendations out of the library, and what to continue watching.
//!
//! A taste profile is read off one account's watch history, newest first, and only ever off the
//! caller's own: whose history may be looked at is settled before anything is asked, and for a
//! caller without an account nothing is asked at all.
use vstd::prelude::*;

use crate::http::{
    opt_reply, opt_request, replies_view, HttpReply, HttpRequest, ReplyView, RequestView,
};
use crate::json::{
    jsons, no_fields, read_view, text_array_view, text_or_null, Fields, Json, JsonView,
};
use crate::media::clients::{map_reply, reply_content, Service};
use crate::media::clients::plex::PlexClient;
use crate::media::clients::radarr::RadarrClient;
use crate::media::clients::sonarr::SonarrClient;
use crate::media::search::{first_of, plex_items, read_plex_items};
use crate::number::{float_rank, rank_of};
use crate::order::{
    indices_view, keys_view, rank_indices, ranking, ranking_is_ordered, ranks_before,
};
use crate::rating::{rate_all, Ratable};
use crate::registry::{with_tool, InfoView, ToolInfo, ToolRegistry};
use crate::schema::{describe, described, described_view, optional_object, optional_object_view};
use crate::text::{
    cat2, cat3, cat4, cat5, dec, fmt_int, has_text, join, joined, lowercase, opt_str, opt_text,
    owned, same, texts, to_lower, trim, trimmed,
};
use crate::tool::{speak, spoken, CallerContext, ErrorView, Step, StepView, ToolError};

verus! {

// ── whose history ───────────────────────────────────────────────────────────

/// Whose watch history a call may look at.
#[derive(Debug, PartialEq, Eq)]
pub enum HistoryScope {
    /// The caller's own account.
    Account(String),
    /// Nobody's.
    Unentitled,
}

/// The content of a [`HistoryScope`].
pub enum ScopeView {
    Account(Seq<char>),
    Unentitled,
}

impl View for HistoryScope {
    type V = ScopeView;

    open spec fn view(&self) -> ScopeView {
        match *self {
            HistoryScope::Account(a) => ScopeView::Account(a@),
            HistoryScope::Unentitled => ScopeView::Unentitled,
        }
    }
}

/// What is said to a caller who asks for an account that is not theirs. It names no account.
pub const FOREIGN_ACCOUNT_REFUSAL: &'static str =
    "account_id may only be your own media account. Omit it and I'll use yours.";

/// Whose history a call may look at: the caller's own, by name or by default. Any other name is
/// refused.
pub open spec fn scope_of(explicit: Option<Seq<char>>, own: Option<Seq<char>>) -> Result<
    ScopeView,
    ErrorView,
> {
    match (own, explicit) {
        (Some(o), None) => Ok(ScopeView::Account(o)),
        (None, None) => Ok(ScopeView::Unentitled),
        (o, Some(asked)) => if o == Some(asked) {
            Ok(ScopeView::Account(asked))
        } else {
            Err(ErrorView::InvalidArgument(FOREIGN_ACCOUNT_REFUSAL@))
        },
    }
}

/// The content of a scope's result.
pub open spec fn scope_result(r: Result<HistoryScope, ToolError>) -> Result<ScopeView, ErrorView> {
    match r {
        Ok(s) => Ok(s@),
        Err(e) => Err(e@),
    }
}

/// Settles whose history a call may look at as [`scope_of`] says.
pub fn resolve_history_scope(explicit: Option<&str>, caller: &CallerContext) -> (r: Result<
    HistoryScope,
    ToolError,
>)
    ensures
        scope_result(r) == scope_of(opt_str(explicit), caller.account()),
{
    match (caller.media_account(), explicit) {
        (Some(own), None) => Ok(HistoryScope::Account(owned(own))),
        (Some(own), Some(asked)) => {
            if same(asked, own) {
                Ok(HistoryScope::Account(owned(own)))
            } else {
                Err(ToolError::invalid(FOREIGN_ACCOUNT_REFUSAL))
            }
        },
        (None, Some(_)) => Err(ToolError::invalid(FOREIGN_ACCOUNT_REFUSAL)),
        (None, None) => Ok(HistoryScope::Unentitled),
    }
}

/// Whatever a caller asks for, the only history they can reach is that of their own account.
pub proof fn history_scope_is_own_or_none(explicit: Option<Seq<char>>, own: Option<Seq<char>>)
    ensures
        scope_of(explicit, own) matches Ok(ScopeView::Account(a)) ==> own == Some(a),
        own is None ==> !(scope_of(explicit, own) matches Ok(ScopeView::Account(_))),
{
}

/// A refusal says the same to every caller, whoever was asked for.
pub proof fn refusal_names_nobody(
    asked: Seq<char>,
    own: Option<Seq<char>>,
    other_asked: Seq<char>,
    other_own: Option<Seq<char>>,
)
    requires
        own != Some(asked),
        other_own != Some(other_asked),
    ensures
        scope_of(Some(asked), own) == scope_of(Some(other_asked), other_own),
        scope_of(Some(asked), own) is Err,
{
}

// ── reading items ───────────────────────────────────────────────────────────

/// A title in the form in which titles are compared.
pub fn normalize_title(s: &str) -> (r: String)
    ensures
        r@ == lowercase(trimmed(s@)),
{
    to_lower(trim(s))
}

/// The text of a tag: a string, or the `tag` of an object.
pub open spec fn tag_text(v: JsonView) -> Option<Seq<char>> {
    match v.text() {
        Some(s) => Some(s),
        None => v.text_at("tag"@),
    }
}

/// The texts of a list of tags, but for those that are empty, in order.
pub open spec fn tag_texts(items: Seq<JsonView>) -> Seq<Seq<char>>
    decreases items.len(),
{
    if items.len() == 0 {
        Seq::empty()
    } else {
        let front = tag_texts(items.drop_last());
        match tag_text(items.last()) {
            Some(s) => if s.len() > 0 {
                front.push(s)
            } else {
                front
            },
            None => front,
        }
    }
}

/// The tags of an item under `key`.
pub open spec fn tags_at(item: JsonView, key: Seq<char>) -> Seq<Seq<char>> {
    match item.items_at(key) {
        Some(items) => tag_texts(items),
        None => Seq::empty(),
    }
}

/// Reads the tags of an item as [`tags_at`] says.
pub fn extract_tags(item: &Json, key: &str) -> (r: Vec<String>)
    ensures
        texts(r@) == tags_at(item@, key@),
{
    let mut out: Vec<String> = Vec::new();
    assert(texts(out@) =~= Seq::<Seq<char>>::empty());
    let items = match item.array_at(key) {
        Some(v) => v,
        None => {
            return out;
        },
    };
    let ghost view = jsons(items@);
    let mut i: usize = 0;
    assert(view.take(0) =~= Seq::<JsonView>::empty());
    while i < items.len()
        invariant
            i <= items.len(),
            view == jsons(items@),
            texts(out@) == tag_texts(view.take(i as int)),
        decreases items.len() - i,
    {
        let v = &items[i];
        let ghost next = view.take(i + 1);
        let ghost before = texts(out@);
        assert(next.drop_last() =~= view.take(i as int));
        assert(next.last() == v@);
        let text = match v.as_str() {
            Some(s) => Some(s),
            None => v.str_at("tag"),
        };
        if let Some(s) = text {
            if !s.is_empty() {
                out.push(owned(s));
                assert(texts(out@) =~= before.push(s@));
            }
        }
        i += 1;
    }
    assert(view.take(view.len() as int) =~= view);
    out
}

/// The tags under one key, then those under another.
fn extract_both(item: &Json, first: &str, second: &str) -> (r: Vec<String>)
    ensures
        texts(r@) == tags_at(item@, first@) + tags_at(item@, second@),
{
    let mut out = extract_tags(item, first);
    let mut more = extract_tags(item, second);
    let ghost a = texts(out@);
    let ghost b = texts(more@);
    out.append(&mut more);
    assert(texts(out@) =~= a + b);
    out
}

/// The title of an item: its own, its show's, or its name.
pub open spec fn title_view(item: JsonView) -> Option<Seq<char>> {
    match item.text_at("title"@) {
        Some(t) => Some(t),
        None => match item.text_at("grandparentTitle"@) {
            Some(t) => Some(t),
            None => item.text_at("name"@),
        },
    }
}

/// The title of an item: its own, its show's, or its name.
pub fn item_title(item: &Json) -> (r: Option<&str>)
    ensures
        opt_str(r) == title_view(item@),
{
    match item.str_at("title") {
        Some(t) => Some(t),
        None => match item.str_at("grandparentTitle") {
            Some(t) => Some(t),
            None => item.str_at("name"),
        },
    }
}

/// An id as text, whether it is a number or a string.
pub open spec fn id_text(v: JsonView) -> Option<Seq<char>> {
    match v.int64() {
        Some(n) => Some(dec(n)),
        None => v.text(),
    }
}

/// The account that watched an item, where it says.
pub open spec fn account_view(item: JsonView) -> Option<Seq<char>> {
    match id_text(item.at("accountID"@)) {
        Some(a) => Some(a),
        None => id_text(item.at("User"@).at("id"@)),
    }
}

fn id_of(v: Option<&Json>) -> (r: Option<String>)
    ensures
        opt_text(r) == (match v {
            Some(x) => id_text(x@),
            None => None,
        }),
{
    match v {
        Some(x) => match x.as_i64() {
            Some(n) => Some(fmt_int(n as i128)),
            None => match x.as_str() {
                Some(s) => Some(owned(s)),
                None => None,
            },
        },
        None => None,
    }
}

/// The account that watched an item, where it says.
pub fn item_account_id(item: &Json) -> (r: Option<String>)
    ensures
        opt_text(r) == account_view(item@),
{
    match id_of(item.get("accountID")) {
        Some(a) => Some(a),
        None => match item.get("User") {
            Some(user) => id_of(user.get("id")),
            None => None,
        },
    }
}

/// The items that one account watched, in order. An item that does not say who watched it is
/// nobody's.
pub open spec fn watched_by(items: Seq<JsonView>, account: Seq<char>) -> Seq<JsonView>
    decreases items.len(),
{
    if items.len() == 0 {
        Seq::empty()
    } else {
        let front = watched_by(items.drop_last(), account);
        if account_view(items.last()) == Some(account) {
            front.push(items.last())
        } else {
            front
        }
    }
}

/// Filters a history down to one account as [`watched_by`] says.
pub fn filter_to_account(items: &Vec<Json>, account_id: &str) -> (r: Vec<Json>)
    ensures
        jsons(r@) == watched_by(jsons(items@), account_id@),
{
    let ghost view = jsons(items@);
    let mut out: Vec<Json> = Vec::new();
    let mut i: usize = 0;
    assert(view.take(0) =~= Seq::<JsonView>::empty());
    assert(jsons(out@) =~= Seq::<JsonView>::empty());
    while i < items.len()
        invariant
            i <= items.len(),
            view == jsons(items@),
            jsons(out@) == watched_by(view.take(i as int), account_id@),
        decreases items.len() - i,
    {
        let item = &items[i];
        let ghost next = view.take(i + 1);
        let ghost before = jsons(out@);
        assert(next.drop_last() =~= view.take(i as int));
        assert(next.last() == item@);
        if let Some(a) = item_account_id(item) {
            if same(a.as_str(), account_id) {
                out.push(item.copy());
                assert(jsons(out@) =~= before.push(item@));
            }
        }
        i += 1;
    }
    assert(view.take(view.len() as int) =~= view);
    out
}

/// A history filtered to one account holds nothing that anyone else watched.
pub proof fn filtered_history_is_one_account(items: Seq<JsonView>, account: Seq<char>)
    ensures
        forall|i: int|
            0 <= i < watched_by(items, account).len() ==> account_view(
                #[trigger] watched_by(items, account)[i],
            ) == Some(account),
    decreases items.len(),
{
    if items.len() > 0 {
        filtered_history_is_one_account(items.drop_last(), account);
    }
}

// ── the taste profile ───────────────────────────────────────────────────────

/// What one watched item says about taste.
#[derive(Debug, PartialEq, Eq)]
pub struct TasteEntry {
    pub title: Option<String>,
    pub genres: Vec<String>,
    pub directors: Vec<String>,
}

/// The content of a [`TasteEntry`].
pub struct EntryView {
    pub title: Option<Seq<char>>,
    pub genres: Seq<Seq<char>>,
    pub directors: Seq<Seq<char>>,
}

impl View for TasteEntry {
    type V = EntryView;

    open spec fn view(&self) -> EntryView {
        EntryView {
            title: opt_text(self.title),
            genres: texts(self.genres@),
            directors: texts(self.directors@),
        }
    }
}

/// What one account watched, newest first: an entry's place is its recency.
#[derive(Debug, PartialEq, Eq)]
pub struct TasteProfile {
    pub entries: Vec<TasteEntry>,
}

impl View for TasteProfile {
    type V = Seq<EntryView>;

    open spec fn view(&self) -> Seq<EntryView> {
        self.entries@.map_values(|e: TasteEntry| e@)
    }
}

/// When an item was watched; the beginning of time where it does not say.
pub open spec fn viewed_at(item: JsonView) -> int {
    match item.int_at("viewedAt"@) {
        Some(n) => n,
        None => 0,
    }
}

/// What a watched item says about taste.
pub open spec fn entry_of(item: JsonView) -> EntryView {
    EntryView {
        title: title_view(item),
        genres: tags_at(item, "Genre"@) + tags_at(item, "genres"@),
        directors: tags_at(item, "Director"@) + tags_at(item, "directors"@),
    }
}

/// The keys by which a history is ordered.
pub open spec fn viewing_keys(items: Seq<JsonView>) -> Seq<(int, int)> {
    items.map_values(|item: JsonView| (viewed_at(item), 0int))
}

/// The taste profile of a history: its items newest first, and in their given order where they are
/// equally new.
pub open spec fn profile_of(items: Seq<JsonView>) -> Seq<EntryView> {
    ranking(viewing_keys(items), items.len() as int).map_values(|i: int| entry_of(items[i]))
}

/// Reads the taste profile of a history as [`profile_of`] says.
pub fn build_taste_profile(items: &Vec<Json>) -> (r: TasteProfile)
    ensures
        r@ == profile_of(jsons(items@)),
{
    let ghost view = jsons(items@);
    let mut keys: Vec<(i128, i128)> = Vec::new();
    let mut i: usize = 0;
    while i < items.len()
        invariant
            i <= items.len(),
            view == jsons(items@),
            keys.len() == i,
            forall|k: int|
                0 <= k < i ==> (#[trigger] keys@[k]).0 == viewed_at(view[k]) && keys@[k].1 == 0,
        decreases items.len() - i,
    {
        assert(view[i as int] == items@[i as int]@);
        let at: i64 = match items[i].int_at("viewedAt") {
            Some(n) => n,
            None => 0,
        };
        keys.push((at as i128, 0));
        i += 1;
    }
    assert(keys_view(keys@) =~= viewing_keys(view));
    let order = rank_indices(&keys);
    let ghost places = indices_view(order@);
    let mut entries: Vec<TasteEntry> = Vec::new();
    let mut k: usize = 0;
    while k < order.len()
        invariant
            k <= order.len(),
            view == jsons(items@),
            order.len() == items.len(),
            places == indices_view(order@),
            forall|m: int| 0 <= m < order.len() ==> order@[m] < items.len(),
            entries.len() == k,
            forall|m: int| 0 <= m < k ==> (#[trigger] entries@[m])@ == entry_of(view[places[m]]),
        decreases order.len() - k,
    {
        let item = &items[order[k]];
        assert(view[places[k as int]] == item@);
        let title = match item_title(item) {
            Some(t) => Some(owned(t)),
            None => None,
        };
        entries.push(
            TasteEntry {
                title,
                genres: extract_both(item, "Genre", "genres"),
                directors: extract_both(item, "Director", "directors"),
            },
        );
        k += 1;
    }
    let r = TasteProfile { entries };
    assert(r@ =~= profile_of(view));
    r
}

/// A profile holds every item of its history once, and never an older one before a newer one,
/// whatever the order in which the history came.
pub proof fn recent_watches_come_first(items: Seq<JsonView>)
    ensures
        ({
            let order = ranking(viewing_keys(items), items.len() as int);
            &&& profile_of(items).len() == items.len()
            &&& order.len() == items.len()
            &&& forall|i: int| 0 <= i < items.len() ==> #[trigger] order.contains(i)
            &&& forall|k: int|
                0 <= k < items.len() ==> 0 <= order[k] < items.len() && (#[trigger] profile_of(
                    items,
                )[k]) == entry_of(items[order[k]])
            &&& forall|k: int, l: int|
                0 <= k < l < items.len() ==> viewed_at(items[#[trigger] order[k]]) >= viewed_at(
                    items[#[trigger] order[l]],
                )
        }),
{
    let keys = viewing_keys(items);
    let order = ranking(keys, items.len() as int);
    ranking_is_ordered(keys, items.len() as int);
    assert forall|k: int, l: int| 0 <= k < l < items.len() implies viewed_at(
        items[#[trigger] order[k]],
    ) >= viewed_at(items[#[trigger] order[l]]) by {
        assert(ranks_before(keys, order[k], order[l]));
        assert(keys[order[k]] == (viewed_at(items[order[k]]), 0int));
        assert(keys[order[l]] == (viewed_at(items[order[l]]), 0int));
    }
}

/// A history in the order of its profile.
spec fn newest_first(items: Seq<JsonView>) -> Seq<JsonView> {
    ranking(viewing_keys(items), items.len() as int).map_values(|i: int| items[i])
}

/// Whether no two items of a history were viewed at one time.
pub open spec fn viewed_at_different_times(items: Seq<JsonView>) -> bool {
    forall|i: int, j: int|
        0 <= i < j < items.len() ==> viewed_at(#[trigger] items[i]) != viewed_at(
            #[trigger] items[j],
        )
}

/// Whether the items stand from the newest to the oldest, no two viewed at one time.
spec fn strictly_newest_first(items: Seq<JsonView>) -> bool {
    forall|i: int, j: int|
        0 <= i < j < items.len() ==> viewed_at(#[trigger] items[i]) > viewed_at(#[trigger] items[j])
}

proof fn lemma_newest_first(items: Seq<JsonView>)
    requires
        viewed_at_different_times(items),
    ensures
        strictly_newest_first(newest_first(items)),
        forall|x: JsonView| #[trigger] newest_first(items).contains(x) <==> items.contains(x),
{
    let order = ranking(viewing_keys(items), items.len() as int);
    let sorted = newest_first(items);
    recent_watches_come_first(items);
    ranking_is_ordered(viewing_keys(items), items.len() as int);
    assert forall|i: int, j: int| 0 <= i < j < sorted.len() implies viewed_at(#[trigger] sorted[i])
        > viewed_at(#[trigger] sorted[j]) by {
        assert(viewed_at(items[order[i]]) >= viewed_at(items[order[j]]));
        assert(ranks_before(viewing_keys(items), order[i], order[j]));
        assert(order[i] != order[j]);
    }
    assert forall|x: JsonView| #[trigger] sorted.contains(x) <==> items.contains(x) by {
        if sorted.contains(x) {
            let k = choose|k: int| 0 <= k < sorted.len() && sorted[k] == x;
            assert(items[order[k]] == x);
        }
        if items.contains(x) {
            let i = choose|i: int| 0 <= i < items.len() && items[i] == x;
            assert(order.contains(i));
            let k = choose|k: int| 0 <= k < order.len() && order[k] == i;
            assert(sorted[k] == x);
        }
    }
}

/// There is one way to put items that were viewed at different times from the newest to the oldest.
proof fn lemma_one_newest_first(a: Seq<JsonView>, b: Seq<JsonView>)
    requires
        strictly_newest_first(a),
        strictly_newest_first(b),
        forall|x: JsonView| #[trigger] a.contains(x) <==> b.contains(x),
    ensures
        a == b,
    decreases a.len(),
{
    if a.len() == 0 {
        if b.len() > 0 {
            assert(b.contains(b[0]));
            assert(a.contains(b[0]));
        }
        assert(a =~= b);
    } else {
        assert(a.contains(a[0]));
        let j = choose|j: int| 0 <= j < b.len() && b[j] == a[0];
        assert(b.contains(b[0]));
        assert(a.contains(b[0]));
        let i = choose|i: int| 0 <= i < a.len() && a[i] == b[0];
        assert(i == 0);
        let c = a.drop_first();
        let d = b.drop_first();
        assert forall|x: JsonView| #[trigger] c.contains(x) <==> d.contains(x) by {
            assert(a.contains(x) <==> b.contains(x));
            lemma_in_the_rest(a, x);
            lemma_in_the_rest(b, x);
        }
        lemma_one_newest_first(c, d);
        assert(a =~= seq![a[0]] + c);
        assert(b =~= seq![b[0]] + d);
    }
}

/// What is in the rest of a list of items that were viewed at different times.
proof fn lemma_in_the_rest(items: Seq<JsonView>, x: JsonView)
    requires
        items.len() > 0,
        strictly_newest_first(items),
    ensures
        items.drop_first().contains(x) <==> items.contains(x) && x != items[0],
{
    let rest = items.drop_first();
    if rest.contains(x) {
        let k = choose|k: int| 0 <= k < rest.len() && rest[k] == x;
        assert(items[k + 1] == x);
    }
    if items.contains(x) && x != items[0] {
        let k = choose|k: int| 0 <= k < items.len() && items[k] == x;
        assert(rest[k - 1] == x);
    }
}

/// Two orders of one history give one profile, where no two of its items were viewed at one time.
pub proof fn profile_ignores_the_order_of_the_history(a: Seq<JsonView>, b: Seq<JsonView>)
    requires
        a.to_multiset() == b.to_multiset(),
        viewed_at_different_times(a),
    ensures
        profile_of(a) == profile_of(b),
{
    a.to_multiset_ensures();
    b.to_multiset_ensures();
    assert forall|x: JsonView| a.contains(x) <==> b.contains(x) by {
        assert(a.contains(x) <==> a.to_multiset().count(x) > 0);
        assert(b.contains(x) <==> b.to_multiset().count(x) > 0);
    }
    lemma_times_stay_different(a, b);
    lemma_newest_first(a);
    lemma_newest_first(b);
    assert forall|x: JsonView| #[trigger] newest_first(a).contains(x) <==> newest_first(b).contains(
        x,
    ) by {
        assert(a.contains(x) <==> b.contains(x));
    }
    lemma_one_newest_first(newest_first(a), newest_first(b));
    recent_watches_come_first(a);
    recent_watches_come_first(b);
    assert(profile_of(a) =~= newest_first(a).map_values(|item: JsonView| entry_of(item)));
    assert(profile_of(b) =~= newest_first(b).map_values(|item: JsonView| entry_of(item)));
}

/// Another order of a history has its items at different times too.
proof fn lemma_times_stay_different(a: Seq<JsonView>, b: Seq<JsonView>)
    requires
        a.to_multiset() == b.to_multiset(),
        viewed_at_different_times(a),
    ensures
        viewed_at_different_times(b),
{
    a.to_multiset_ensures();
    b.to_multiset_ensures();
    assert(a.no_duplicates());
    a.lemma_multiset_has_no_duplicates();
    b.lemma_multiset_has_no_duplicates_conv();
    assert forall|i: int, j: int| 0 <= i < j < b.len() implies viewed_at(#[trigger] b[i])
        != viewed_at(#[trigger] b[j]) by {
        assert(b.contains(b[i]) && b.contains(b[j]));
        assert(b.to_multiset().count(b[i]) > 0 && b.to_multiset().count(b[j]) > 0);
        assert(a.contains(b[i]) && a.contains(b[j]));
        let k = choose|k: int| 0 <= k < a.len() && a[k] == b[i];
        let l = choose|l: int| 0 <= l < a.len() && a[l] == b[j];
        assert(b[i] != b[j]);
        assert(k != l);
        if k < l {
            assert(viewed_at(a[k]) != viewed_at(a[l]));
        } else {
            assert(viewed_at(a[l]) != viewed_at(a[k]));
        }
    }
}

/// The titles that a profile counts as watched are those of its history, whatever their order and
/// their times.
pub proof fn every_watched_title_is_excluded(items: Seq<JsonView>, title: Seq<char>)
    ensures
        was_watched(profile_of(items), title) <==> exists|i: int|
            0 <= i < items.len() && (title_view(#[trigger] items[i]) matches Some(t) && lowercase(
                trimmed(t),
            ) == lowercase(trimmed(title))),
{
    let order = ranking(viewing_keys(items), items.len() as int);
    let profile = profile_of(items);
    recent_watches_come_first(items);
    if was_watched(profile, title) {
        let k = choose|k: int|
            0 <= k < profile.len() && ((#[trigger] profile[k]).title matches Some(t) && lowercase(
                trimmed(t),
            ) == lowercase(trimmed(title)));
        assert(title_view(items[order[k]]) == profile[k].title);
    }
    if exists|i: int|
        0 <= i < items.len() && (title_view(#[trigger] items[i]) matches Some(t) && lowercase(
            trimmed(t),
        ) == lowercase(trimmed(title))) {
        let i = choose|i: int|
            0 <= i < items.len() && (title_view(#[trigger] items[i]) matches Some(t) && lowercase(
                trimmed(t),
            ) == lowercase(trimmed(title)));
        assert(order.contains(i));
        let k = choose|k: int| 0 <= k < order.len() && order[k] == i;
        assert(profile[k].title == title_view(items[i]));
    }
}

/// A recency, once for each time a tag is in a list.
pub open spec fn repeated(tags: Seq<Seq<char>>, tag: Seq<char>, recency: int) -> Seq<int>
    decreases tags.len(),
{
    if tags.len() == 0 {
        Seq::empty()
    } else {
        let front = repeated(tags.drop_last(), tag, recency);
        if tags.last() == tag {
            front.push(recency)
        } else {
            front
        }
    }
}

/// The tags of an entry of one kind.
pub open spec fn entry_tags(entry: EntryView, directors: bool) -> Seq<Seq<char>> {
    if directors {
        entry.directors
    } else {
        entry.genres
    }
}

/// The recencies of the first `n` entries that a tag occurs in, once for each occurrence. The tag's
/// weight is summed over them.
pub open spec fn recencies(
    profile: Seq<EntryView>,
    tag: Seq<char>,
    directors: bool,
    n: int,
) -> Seq<int>
    decreases n,
{
    if n <= 0 {
        Seq::empty()
    } else {
        recencies(profile, tag, directors, n - 1) + repeated(
            entry_tags(profile[n - 1], directors),
            tag,
            n - 1,
        )
    }
}

/// The recencies of all entries that a tag occurs in.
pub open spec fn tag_recencies(profile: Seq<EntryView>, tag: Seq<char>, directors: bool) -> Seq<
    int,
> {
    recencies(profile, tag, directors, profile.len() as int)
}

fn push_repeated(out: &mut Vec<usize>, tags: &Vec<String>, tag: &str, recency: usize)
    ensures
        indices_view(final(out)@) == indices_view(old(out)@) + repeated(
            texts(tags@),
            tag@,
            recency as int,
        ),
{
    let ghost before = indices_view(out@);
    let ghost view = texts(tags@);
    let mut i: usize = 0;
    assert(view.take(0) =~= Seq::<Seq<char>>::empty());
    assert(before + Seq::<int>::empty() =~= before);
    while i < tags.len()
        invariant
            i <= tags.len(),
            view == texts(tags@),
            indices_view(out@) == before + repeated(view.take(i as int), tag@, recency as int),
        decreases tags.len() - i,
    {
        let ghost next = view.take(i + 1);
        let ghost so_far = repeated(view.take(i as int), tag@, recency as int);
        let ghost held = indices_view(out@);
        assert(next.drop_last() =~= view.take(i as int));
        assert(next.last() == tags@[i as int]@);
        if same(tags[i].as_str(), tag) {
            out.push(recency);
            assert(indices_view(out@) =~= held.push(recency as int));
            assert(before + so_far.push(recency as int) =~= (before + so_far).push(
                recency as int,
            ));
        }
        i += 1;
    }
    assert(view.take(view.len() as int) =~= view);
}

impl TasteProfile {
    /// Lists the recencies that a tag's weight is summed over, as [`tag_recencies`] says.
    pub fn recencies(&self, tag: &str, directors: bool) -> (r: Vec<usize>)
        ensures
            indices_view(r@) == tag_recencies(self@, tag@, directors),
    {
        let mut out: Vec<usize> = Vec::new();
        let mut i: usize = 0;
        assert(indices_view(out@) =~= Seq::<int>::empty());
        while i < self.entries.len()
            invariant
                i <= self.entries.len(),
                indices_view(out@) == recencies(self@, tag@, directors, i as int),
            decreases self.entries.len() - i,
        {
            let entry = &self.entries[i];
            assert(self@[i as int] == entry@);
            if directors {
                push_repeated(&mut out, &entry.directors, tag, i);
            } else {
                push_repeated(&mut out, &entry.genres, tag, i);
            }
            i += 1;
        }
        out
    }

    /// Whether an item with this title was watched, whatever its letter case.
    pub fn has_watched(&self, title: &str) -> (r: bool)
        ensures
            r == was_watched(self@, title@),
    {
        let needle = normalize_title(title);
        let mut i: usize = 0;
        while i < self.entries.len()
            invariant
                i <= self.entries.len(),
                needle@ == lowercase(trimmed(title@)),
                forall|k: int|
                    0 <= k < i ==> !((#[trigger] self@[k]).title matches Some(t) && lowercase(
                        trimmed(t),
                    ) == needle@),
            decreases self.entries.len() - i,
        {
            assert(self@[i as int] == self.entries@[i as int]@);
            if let Some(t) = &self.entries[i].title {
                let seen = normalize_title(t.as_str());
                if same(seen.as_str(), needle.as_str()) {
                    return true;
                }
            }
            i += 1;
        }
        false
    }

    /// The title of the newest watched item of a genre.
    pub fn sample(&self, genre: &str) -> (r: Option<&str>)
        ensures
            opt_str(r) == sample_from(self@, genre@, 0),
    {
        let mut i: usize = 0;
        while i < self.entries.len()
            invariant
                i <= self.entries.len(),
                sample_from(self@, genre@, 0) == sample_from(self@, genre@, i as int),
            decreases self.entries.len() - i,
        {
            let entry = &self.entries[i];
            assert(self@[i as int] == entry@);
            if has_text(&entry.genres, genre) {
                if let Some(t) = &entry.title {
                    return Some(t.as_str());
                }
            }
            i += 1;
        }
        None
    }
}

/// Whether an item with this title was watched, whatever its letter case.
pub open spec fn was_watched(profile: Seq<EntryView>, title: Seq<char>) -> bool {
    exists|i: int|
        0 <= i < profile.len() && ((#[trigger] profile[i]).title matches Some(t) && lowercase(
            trimmed(t),
        ) == lowercase(trimmed(title)))
}

/// The title of the newest watched item of a genre, from entry `i` on.
pub open spec fn sample_from(profile: Seq<EntryView>, genre: Seq<char>, i: int) -> Option<
    Seq<char>,
>
    decreases profile.len() - i,
{
    if i >= profile.len() {
        None
    } else if profile[i].genres.contains(genre) && profile[i].title is Some {
        profile[i].title
    } else {
        sample_from(profile, genre, i + 1)
    }
}

// ── suggestions ─────────────────────────────────────────────────────────────

/// Something in the library.
#[derive(Debug, PartialEq, Eq)]
pub struct LibraryCandidate {
    pub title: String,
    pub media_type: String,
    pub genres: Vec<String>,
    pub directors: Vec<String>,
}

/// The content of a [`LibraryCandidate`].
pub struct LibraryView {
    pub title: Seq<char>,
    pub media_type: Seq<char>,
    pub genres: Seq<Seq<char>>,
    pub directors: Seq<Seq<char>>,
}

impl View for LibraryCandidate {
    type V = LibraryView;

    open spec fn view(&self) -> LibraryView {
        LibraryView {
            title: self.title@,
            media_type: self.media_type@,
            genres: texts(self.genres@),
            directors: texts(self.directors@),
        }
    }
}

/// The content of a list of library candidates.
pub open spec fn library_views(v: Seq<LibraryCandidate>) -> Seq<LibraryView> {
    v.map_values(|c: LibraryCandidate| c@)
}

/// The items of a library that have a title, in order.
pub open spec fn library_of(items: Seq<JsonView>, media_type: Seq<char>) -> Seq<LibraryView>
    decreases items.len(),
{
    if items.len() == 0 {
        Seq::empty()
    } else {
        let front = library_of(items.drop_last(), media_type);
        match title_view(items.last()) {
            Some(title) => front.push(
                LibraryView {
                    title,
                    media_type,
                    genres: tags_at(items.last(), "genres"@) + tags_at(items.last(), "Genre"@),
                    directors: tags_at(items.last(), "directors"@) + tags_at(
                        items.last(),
                        "Director"@,
                    ),
                },
            ),
            None => front,
        }
    }
}

/// Reads the items of a library as [`library_of`] says, and adds them to a list.
pub fn extract_candidates(items: &Vec<Json>, media_type: &str, out: &mut Vec<LibraryCandidate>)
    ensures
        library_views(final(out)@) == library_views(old(out)@) + library_of(
            jsons(items@),
            media_type@,
        ),
{
    let ghost before = library_views(out@);
    let ghost view = jsons(items@);
    let mut i: usize = 0;
    assert(view.take(0) =~= Seq::<JsonView>::empty());
    assert(before + Seq::<LibraryView>::empty() =~= before);
    while i < items.len()
        invariant
            i <= items.len(),
            view == jsons(items@),
            library_views(out@) == before + library_of(view.take(i as int), media_type@),
        decreases items.len() - i,
    {
        let item = &items[i];
        let ghost next = view.take(i + 1);
        let ghost so_far = library_of(view.take(i as int), media_type@);
        let ghost held = library_views(out@);
        assert(next.drop_last() =~= view.take(i as int));
        assert(next.last() == item@);
        if let Some(title) = item_title(item) {
            let c = LibraryCandidate {
                title: owned(title),
                media_type: owned(media_type),
                genres: extract_both(item, "genres", "Genre"),
                directors: extract_both(item, "directors", "Director"),
            };
            out.push(c);
            assert(library_views(out@) =~= held.push(c@));
            assert(before + so_far.push(c@) =~= (before + so_far).push(c@));
        }
        i += 1;
    }
    assert(view.take(view.len() as int) =~= view);
}

/// The tags of a candidate that the profile knows, in order.
pub open spec fn known_tags(profile: Seq<EntryView>, tags: Seq<Seq<char>>, directors: bool) -> Seq<
    Seq<char>,
>
    decreases tags.len(),
{
    if tags.len() == 0 {
        Seq::empty()
    } else {
        let front = known_tags(profile, tags.drop_last(), directors);
        if tag_recencies(profile, tags.last(), directors).len() > 0 {
            front.push(tags.last())
        } else {
            front
        }
    }
}

/// The recencies behind each of a list of tags.
pub open spec fn evidence(profile: Seq<EntryView>, tags: Seq<Seq<char>>, directors: bool) -> Seq<
    Seq<int>,
> {
    tags.map_values(|t: Seq<char>| tag_recencies(profile, t, directors))
}

/// The content of a list of lists of recencies.
pub open spec fn evidence_view(v: Seq<Vec<usize>>) -> Seq<Seq<int>> {
    v.map_values(|r: Vec<usize>| indices_view(r@))
}

fn weigh(profile: &TasteProfile, tags: &Vec<String>, directors: bool) -> (r: (
    Vec<String>,
    Vec<Vec<usize>>,
))
    ensures
        texts(r.0@) == known_tags(profile@, texts(tags@), directors),
        evidence_view(r.1@) == evidence(profile@, texts(r.0@), directors),
{
    let ghost view = texts(tags@);
    let mut known: Vec<String> = Vec::new();
    let mut found: Vec<Vec<usize>> = Vec::new();
    let mut i: usize = 0;
    assert(view.take(0) =~= Seq::<Seq<char>>::empty());
    assert(texts(known@) =~= Seq::<Seq<char>>::empty());
    assert(evidence_view(found@) =~= evidence(profile@, texts(known@), directors));
    while i < tags.len()
        invariant
            i <= tags.len(),
            view == texts(tags@),
            texts(known@) == known_tags(profile@, view.take(i as int), directors),
            evidence_view(found@) == evidence(profile@, texts(known@), directors),
        decreases tags.len() - i,
    {
        let ghost next = view.take(i + 1);
        let ghost known_before = texts(known@);
        let ghost found_before = evidence_view(found@);
        assert(next.drop_last() =~= view.take(i as int));
        assert(next.last() == tags@[i as int]@);
        let recencies = profile.recencies(tags[i].as_str(), directors);
        assert(indices_view(recencies@).len() == recencies@.len());
        if recencies.len() > 0 {
            let ghost r = indices_view(recencies@);
            known.push(owned(tags[i].as_str()));
            found.push(recencies);
            assert(texts(known@) =~= known_before.push(tags@[i as int]@));
            assert(evidence_view(found@) =~= found_before.push(r));
            assert(evidence(profile@, texts(known@), directors) =~= evidence(
                profile@,
                known_before,
                directors,
            ).push(r));
        }
        i += 1;
    }
    assert(view.take(view.len() as int) =~= view);
    (known, found)
}

/// An example of each genre that has one, in order.
pub open spec fn samples(profile: Seq<EntryView>, genres: Seq<Seq<char>>) -> Seq<Seq<char>>
    decreases genres.len(),
{
    if genres.len() == 0 {
        Seq::empty()
    } else {
        let front = samples(profile, genres.drop_last());
        match sample_from(profile, genres.last(), 0) {
            Some(t) => front.push(t),
            None => front,
        }
    }
}

/// Why something is suggested. Where no genre is known, nothing is said of anybody's viewing.
pub open spec fn rationale_of(profile: Seq<EntryView>, matched: Seq<Seq<char>>) -> Seq<char> {
    let examples = first_of(samples(profile, matched), 2);
    if matched.len() == 0 {
        "in the library"@
    } else if examples.len() == 0 {
        "because you've been watching "@ + joined(matched, "/"@)
    } else {
        "because you watched "@ + joined(examples, " and "@) + " ("@ + joined(matched, "/"@) + ")"@
    }
}

fn explain(profile: &TasteProfile, matched: &Vec<String>) -> (r: String)
    ensures
        r@ == rationale_of(profile@, texts(matched@)),
{
    if matched.len() == 0 {
        return owned("in the library");
    }
    let ghost view = texts(matched@);
    let mut examples: Vec<String> = Vec::new();
    let mut i: usize = 0;
    assert(view.take(0) =~= Seq::<Seq<char>>::empty());
    assert(texts(examples@) =~= Seq::<Seq<char>>::empty());
    while i < matched.len()
        invariant
            i <= matched.len(),
            view == texts(matched@),
            texts(examples@) == samples(profile@, view.take(i as int)),
        decreases matched.len() - i,
    {
        let ghost next = view.take(i + 1);
        let ghost before = texts(examples@);
        assert(next.drop_last() =~= view.take(i as int));
        assert(next.last() == matched@[i as int]@);
        if let Some(t) = profile.sample(matched[i].as_str()) {
            examples.push(owned(t));
            assert(texts(examples@) =~= before.push(t@));
        }
        i += 1;
    }
    assert(view.take(view.len() as int) =~= view);
    let ghost all = texts(examples@);
    examples.truncate(2);
    assert(texts(examples@) =~= first_of(all, 2));
    let genres = join(matched, "/");
    if examples.len() == 0 {
        cat2("because you've been watching ", genres.as_str())
    } else {
        let names = join(&examples, " and ");
        cat5("because you watched ", names.as_str(), " (", genres.as_str(), ")")
    }
}

/// Something unwatched in the library, why it is suggested, and what its score is summed over: the
/// recencies behind each genre, and behind each director, that the profile knows.
#[derive(Debug, PartialEq, Eq)]
pub struct Suggestion {
    pub title: String,
    pub media_type: String,
    pub matched_genres: Vec<String>,
    pub rationale: String,
    pub genre_recencies: Vec<Vec<usize>>,
    pub director_recencies: Vec<Vec<usize>>,
}

/// The content of a [`Suggestion`].
pub struct SuggestionView {
    pub title: Seq<char>,
    pub media_type: Seq<char>,
    pub matched_genres: Seq<Seq<char>>,
    pub rationale: Seq<char>,
    pub genre_recencies: Seq<Seq<int>>,
    pub director_recencies: Seq<Seq<int>>,
}

impl View for Suggestion {
    type V = SuggestionView;

    open spec fn view(&self) -> SuggestionView {
        SuggestionView {
            title: self.title@,
            media_type: self.media_type@,
            matched_genres: texts(self.matched_genres@),
            rationale: self.rationale@,
            genre_recencies: evidence_view(self.genre_recencies@),
            director_recencies: evidence_view(self.director_recencies@),
        }
    }
}

/// The content of a list of suggestions.
pub open spec fn suggestion_views(v: Seq<Suggestion>) -> Seq<SuggestionView> {
    v.map_values(|x: Suggestion| x@)
}

/// What a library candidate is suggested for.
pub open spec fn suggestion_of(profile: Seq<EntryView>, c: LibraryView) -> SuggestionView {
    let matched = known_tags(profile, c.genres, false);
    SuggestionView {
        title: c.title,
        media_type: c.media_type,
        matched_genres: matched,
        rationale: rationale_of(profile, matched),
        genre_recencies: evidence(profile, matched, false),
        director_recencies: evidence(profile, known_tags(profile, c.directors, true), true),
    }
}

/// The suggestions for a profile: what is in the library and was not watched, in order.
pub open spec fn suggestions_for(profile: Seq<EntryView>, candidates: Seq<LibraryView>) -> Seq<
    SuggestionView,
>
    decreases candidates.len(),
{
    if candidates.len() == 0 {
        Seq::empty()
    } else {
        let front = suggestions_for(profile, candidates.drop_last());
        if was_watched(profile, candidates.last().title) {
            front
        } else {
            front.push(suggestion_of(profile, candidates.last()))
        }
    }
}

/// Makes the suggestions for a profile as [`suggestions_for`] says.
pub fn suggest(profile: &TasteProfile, candidates: &Vec<LibraryCandidate>) -> (r: Vec<Suggestion>)
    ensures
        suggestion_views(r@) == suggestions_for(profile@, library_views(candidates@)),
{
    let ghost view = library_views(candidates@);
    let mut out: Vec<Suggestion> = Vec::new();
    let mut i: usize = 0;
    assert(view.take(0) =~= Seq::<LibraryView>::empty());
    assert(suggestion_views(out@) =~= Seq::<SuggestionView>::empty());
    while i < candidates.len()
        invariant
            i <= candidates.len(),
            view == library_views(candidates@),
            suggestion_views(out@) == suggestions_for(profile@, view.take(i as int)),
        decreases candidates.len() - i,
    {
        let c = &candidates[i];
        let ghost next = view.take(i + 1);
        let ghost before = suggestion_views(out@);
        assert(next.drop_last() =~= view.take(i as int));
        assert(next.last() == c@);
        if !profile.has_watched(c.title.as_str()) {
            let (matched_genres, genre_recencies) = weigh(profile, &c.genres, false);
            let (_, director_recencies) = weigh(profile, &c.directors, true);
            let rationale = explain(profile, &matched_genres);
            let made = Suggestion {
                title: owned(c.title.as_str()),
                media_type: owned(c.media_type.as_str()),
                matched_genres,
                rationale,
                genre_recencies,
                director_recencies,
            };
            assert(made@ == suggestion_of(profile@, c@));
            out.push(made);
            assert(suggestion_views(out@) =~= before.push(suggestion_of(profile@, c@)));
        }
        i += 1;
    }
    assert(view.take(view.len() as int) =~= view);
    out
}

/// Nothing that was watched is ever suggested.
pub proof fn watched_titles_are_not_suggested(
    profile: Seq<EntryView>,
    candidates: Seq<LibraryView>,
)
    ensures
        forall|i: int|
            0 <= i < suggestions_for(profile, candidates).len() ==> !was_watched(
                profile,
                (#[trigger] suggestions_for(profile, candidates)[i]).title,
            ),
    decreases candidates.len(),
{
    if candidates.len() > 0 {
        let front = suggestions_for(profile, candidates.drop_last());
        let all = suggestions_for(profile, candidates);
        watched_titles_are_not_suggested(profile, candidates.drop_last());
        assert forall|i: int| 0 <= i < all.len() implies !was_watched(
            profile,
            (#[trigger] all[i]).title,
        ) by {
            if i < front.len() {
                assert(all[i] == front[i]);
            }
        }
    }
}

proof fn lemma_no_known_tags(tags: Seq<Seq<char>>, directors: bool)
    ensures
        known_tags(Seq::<EntryView>::empty(), tags, directors).len() == 0,
    decreases tags.len(),
{
    if tags.len() > 0 {
        lemma_no_known_tags(tags.drop_last(), directors);
    }
}

/// Without a history, everything in the library is suggested, and every reason is that it is in the
/// library.
pub proof fn no_history_means_no_personal_reason(candidates: Seq<LibraryView>)
    ensures
        suggestions_for(Seq::<EntryView>::empty(), candidates).len() == candidates.len(),
        forall|i: int|
            0 <= i < candidates.len() ==> {
                let made = #[trigger] suggestions_for(Seq::<EntryView>::empty(), candidates)[i];
                &&& made.title == candidates[i].title
                &&& made.matched_genres.len() == 0
                &&& made.rationale == "in the library"@
                &&& made.genre_recencies.len() == 0
                &&& made.director_recencies.len() == 0
            },
    decreases candidates.len(),
{
    if candidates.len() > 0 {
        no_history_means_no_personal_reason(candidates.drop_last());
        lemma_no_known_tags(candidates.last().genres, false);
        lemma_no_known_tags(candidates.last().directors, true);
    }
}

/// A suggestion with its score. `score` holds the bits of the score, and `shown_score` its decimal
/// text, rounded to thousandths.
#[derive(Debug, PartialEq, Eq)]
pub struct Recommendation {
    pub title: String,
    pub media_type: String,
    pub score: u64,
    pub shown_score: String,
    pub matched_genres: Vec<String>,
    pub rationale: String,
}

/// The content of a [`Recommendation`].
pub struct RecommendationView {
    pub title: Seq<char>,
    pub media_type: Seq<char>,
    pub score: u64,
    pub shown_score: Seq<char>,
    pub matched_genres: Seq<Seq<char>>,
    pub rationale: Seq<char>,
}

impl View for Recommendation {
    type V = RecommendationView;

    open spec fn view(&self) -> RecommendationView {
        RecommendationView {
            title: self.title@,
            media_type: self.media_type@,
            score: self.score,
            shown_score: self.shown_score@,
            matched_genres: texts(self.matched_genres@),
            rationale: self.rationale@,
        }
    }
}

/// The content of a list of recommendations.
pub open spec fn recommendation_views(v: Seq<Recommendation>) -> Seq<RecommendationView> {
    v.map_values(|x: Recommendation| x@)
}

impl SuggestionView {
    /// This suggestion with its score.
    pub open spec fn scored(self, score: u64, shown_score: Seq<char>) -> RecommendationView {
        RecommendationView {
            title: self.title,
            media_type: self.media_type,
            score,
            shown_score,
            matched_genres: self.matched_genres,
            rationale: self.rationale,
        }
    }
}

impl Suggestion {
    /// This suggestion with its score.
    pub fn scored(self, score: u64, shown_score: String) -> (r: Recommendation)
        ensures
            r@ == self@.scored(score, shown_score@),
    {
        Recommendation {
            title: self.title,
            media_type: self.media_type,
            score,
            shown_score,
            matched_genres: self.matched_genres,
            rationale: self.rationale,
        }
    }
}

/// The keys by which recommendations rank.
pub open spec fn recommendation_keys(v: Seq<RecommendationView>) -> Seq<(int, int)> {
    v.map_values(|x: RecommendationView| (rank_of(x.score), 0int))
}

/// The best recommendations, at most `limit` of them: by score, and in their given order where
/// scores are equal.
pub open spec fn best_of(v: Seq<RecommendationView>, limit: int) -> Seq<RecommendationView> {
    first_of(
        ranking(recommendation_keys(v), v.len() as int).map_values(|i: int| v[i]),
        limit,
    )
}

/// The recommendations that are shown are as many as asked for, where there are so many; none has a
/// lower score than one that follows it, or than one that is left out.
pub proof fn best_recommendations_come_first(v: Seq<RecommendationView>, limit: int)
    requires
        limit >= 0,
    ensures
        best_of(v, limit).len() == (if v.len() <= limit {
            v.len() as int
        } else {
            limit
        }),
        forall|k: int| 0 <= k < best_of(v, limit).len() ==> v.contains(#[trigger] best_of(v, limit)[k]),
        forall|k: int, l: int|
            0 <= k < l < best_of(v, limit).len() ==> rank_of((#[trigger] best_of(v, limit)[k]).score)
                >= rank_of((#[trigger] best_of(v, limit)[l]).score),
        forall|i: int, k: int|
            0 <= i < v.len() && 0 <= k < best_of(v, limit).len() && !best_of(v, limit).contains(
                #[trigger] v[i],
            ) ==> rank_of((#[trigger] best_of(v, limit)[k]).score) >= rank_of(v[i].score),
{
    let n = v.len() as int;
    let keys = recommendation_keys(v);
    let order = ranking(keys, n);
    let best = best_of(v, limit);
    ranking_is_ordered(keys, n);
    assert forall|k: int| 0 <= k < best.len() implies v.contains(#[trigger] best[k]) by {
        assert(best[k] == v[order[k]]);
    }
    assert forall|k: int, l: int| 0 <= k < l < best.len() implies rank_of(
        (#[trigger] best[k]).score,
    ) >= rank_of((#[trigger] best[l]).score) by {
        assert(ranks_before(keys, order[k], order[l]));
        assert(keys[order[k]] == (rank_of(best[k].score), 0int));
        assert(keys[order[l]] == (rank_of(best[l].score), 0int));
    }
    assert forall|i: int, k: int|
        0 <= i < v.len() && 0 <= k < best.len() && !best.contains(#[trigger] v[i]) implies rank_of(
        (#[trigger] best[k]).score,
    ) >= rank_of(v[i].score) by {
        assert(order.contains(i));
        let m = choose|m: int| 0 <= m < order.len() && order[m] == i;
        if m < best.len() {
            assert(best[m] == v[i]);
        }
        assert(ranks_before(keys, order[k], order[m]));
        assert(keys[order[k]] == (rank_of(best[k].score), 0int));
        assert(keys[i] == (rank_of(v[i].score), 0int));
    }
}

fn copy_texts(v: &Vec<String>) -> (r: Vec<String>)
    ensures
        texts(r@) == texts(v@),
{
    let mut out: Vec<String> = Vec::new();
    let mut i: usize = 0;
    while i < v.len()
        invariant
            i <= v.len(),
            out.len() == i,
            forall|k: int| 0 <= k < i ==> (#[trigger] out@[k])@ == v@[k]@,
        decreases v.len() - i,
    {
        out.push(owned(v[i].as_str()));
        i += 1;
    }
    assert(texts(out@) =~= texts(v@));
    out
}

/// Picks the best recommendations as [`best_of`] says.
pub fn score_recommendations(scored: &Vec<Recommendation>, limit: u64) -> (r: Vec<Recommendation>)
    ensures
        recommendation_views(r@) == best_of(recommendation_views(scored@), limit as int),
{
    let ghost view = recommendation_views(scored@);
    let mut keys: Vec<(i128, i128)> = Vec::new();
    let mut i: usize = 0;
    while i < scored.len()
        invariant
            i <= scored.len(),
            view == recommendation_views(scored@),
            keys.len() == i,
            forall|k: int|
                0 <= k < i ==> (#[trigger] keys@[k]).0 == rank_of(view[k].score) && keys@[k].1 == 0,
        decreases scored.len() - i,
    {
        assert(view[i as int] == scored@[i as int]@);
        keys.push((float_rank(scored[i].score), 0));
        i += 1;
    }
    assert(keys_view(keys@) =~= recommendation_keys(view));
    let order = rank_indices(&keys);
    let ghost places = indices_view(order@);
    let ghost all = places.map_values(|i: int| view[i]);
    let mut out: Vec<Recommendation> = Vec::new();
    let mut k: usize = 0;
    while k < order.len() && (k as u64) < limit
        invariant
            k <= order.len(),
            k as u64 <= limit,
            k as u64 == k,
            view == recommendation_views(scored@),
            order.len() == scored.len(),
            places == indices_view(order@),
            all == places.map_values(|i: int| view[i]),
            forall|m: int| 0 <= m < order.len() ==> order@[m] < scored.len(),
            out.len() == k,
            forall|m: int| 0 <= m < k ==> (#[trigger] out@[m])@ == all[m],
        decreases order.len() - k,
    {
        let x = &scored[order[k]];
        assert(view[places[k as int]] == x@);
        out.push(
            Recommendation {
                title: owned(x.title.as_str()),
                media_type: owned(x.media_type.as_str()),
                score: x.score,
                shown_score: owned(x.shown_score.as_str()),
                matched_genres: copy_texts(&x.matched_genres),
                rationale: owned(x.rationale.as_str()),
            },
        );
        k += 1;
    }
    assert(recommendation_views(out@) =~= best_of(view, limit as int));
    out
}

// ── the answer ──────────────────────────────────────────────────────────────

/// The titles of the first three recommendations, in a row.
pub open spec fn top_titles(v: Seq<RecommendationView>) -> Seq<char> {
    joined(first_of(v, 3).map_values(|x: RecommendationView| x.title), ", "@)
}

/// What is said about recommendations. An answer that is not personal says nothing of anybody's
/// viewing.
pub open spec fn recommend_summary(
    v: Seq<RecommendationView>,
    thin_signal: bool,
    personalized: bool,
    note: Option<Seq<char>>,
) -> Seq<char> {
    let said = if v.len() == 0 {
        "I don't have anything to recommend from the library right now."@
    } else if !personalized {
        "Here's what's in the library: "@ + top_titles(v) + "."@
    } else if thin_signal {
        "I don't have much watch history to go on yet, so here's what's in your library: "@
            + top_titles(v) + "."@
    } else {
        "You might like \""@ + v[0].title + "\" -- "@ + v[0].rationale + "."@
    };
    match note {
        Some(n) => said + " ("@ + n + ")"@,
        None => said,
    }
}

/// A recommendation as it is shown.
pub open spec fn recommendation_json(x: RecommendationView) -> JsonView {
    JsonView::Object(
        no_fields().push(("title"@, JsonView::Str(x.title))).push(
            ("media_type"@, JsonView::Str(x.media_type)),
        ).push(("score"@, JsonView::Float(x.shown_score))).push(
            ("matched_genres"@, text_array_view(x.matched_genres)),
        ).push(("rationale"@, JsonView::Str(x.rationale))),
    )
}

/// The answer with these recommendations.
pub open spec fn recommend_answer(
    v: Seq<RecommendationView>,
    thin_signal: bool,
    personalized: bool,
    note: Option<Seq<char>>,
) -> JsonView {
    spoken(
        recommend_summary(v, thin_signal, personalized, note),
        JsonView::Object(
            no_fields().push(("thin_signal"@, JsonView::Bool(thin_signal))).push(
                ("personalized"@, JsonView::Bool(personalized)),
            ).push(("degraded"@, text_or_null(note))).push(
                (
                    "recommendations"@,
                    JsonView::Array(v.map_values(|x: RecommendationView| recommendation_json(x))),
                ),
            ),
        ),
    )
}

fn first_titles(v: &Vec<Recommendation>) -> (r: String)
    ensures
        r@ == top_titles(recommendation_views(v@)),
{
    let ghost view = recommendation_views(v@);
    let mut out: Vec<String> = Vec::new();
    let mut i: usize = 0;
    while i < v.len() && i < 3
        invariant
            i <= v.len(),
            i <= 3,
            view == recommendation_views(v@),
            out.len() == i,
            forall|k: int| 0 <= k < i ==> (#[trigger] out@[k])@ == view[k].title,
        decreases v.len() - i,
    {
        assert(view[i as int] == v@[i as int]@);
        out.push(owned(v[i].title.as_str()));
        i += 1;
    }
    assert(texts(out@) =~= first_of(view, 3).map_values(|x: RecommendationView| x.title));
    join(&out, ", ")
}

fn shown_recommendations(v: &Vec<Recommendation>) -> (r: Vec<Json>)
    ensures
        jsons(r@) == recommendation_views(v@).map_values(
            |x: RecommendationView| recommendation_json(x),
        ),
{
    let ghost view = recommendation_views(v@);
    let mut out: Vec<Json> = Vec::new();
    let mut i: usize = 0;
    while i < v.len()
        invariant
            i <= v.len(),
            view == recommendation_views(v@),
            out.len() == i,
            forall|k: int| 0 <= k < i ==> (#[trigger] out@[k])@ == recommendation_json(view[k]),
        decreases v.len() - i,
    {
        let x = &v[i];
        assert(view[i as int] == x@);
        let mut f = Fields::new();
        f.put("title", Json::text(x.title.as_str()));
        f.put("media_type", Json::text(x.media_type.as_str()));
        f.put("score", Json::Float(owned(x.shown_score.as_str())));
        f.put("matched_genres", Json::text_array(&x.matched_genres));
        f.put("rationale", Json::text(x.rationale.as_str()));
        out.push(f.object());
        i += 1;
    }
    assert(jsons(out@) =~= view.map_values(|x: RecommendationView| recommendation_json(x)));
    out
}

/// Builds the answer with these recommendations as [`recommend_answer`] says.
pub fn build_recommend_response(
    recommendations: &Vec<Recommendation>,
    thin_signal: bool,
    personalized: bool,
    degraded_note: Option<&str>,
) -> (r: Json)
    ensures
        r@ == recommend_answer(
            recommendation_views(recommendations@),
            thin_signal,
            personalized,
            opt_str(degraded_note),
        ),
{
    let said = if recommendations.len() == 0 {
        owned("I don't have anything to recommend from the library right now.")
    } else if !personalized {
        let list = first_titles(recommendations);
        cat3("Here's what's in the library: ", list.as_str(), ".")
    } else if thin_signal {
        let list = first_titles(recommendations);
        cat3(
            "I don't have much watch history to go on yet, so here's what's in your library: ",
            list.as_str(),
            ".",
        )
    } else {
        let top = &recommendations[0];
        assert(recommendation_views(recommendations@)[0] == top@);
        cat5(
            "You might like \"",
            top.title.as_str(),
            "\" -- ",
            top.rationale.as_str(),
            ".",
        )
    };
    let summary = match degraded_note {
        Some(n) => cat4(said.as_str(), " (", n, ")"),
        None => said,
    };
    let mut f = Fields::new();
    f.put("thin_signal", Json::Bool(thin_signal));
    f.put("personalized", Json::Bool(personalized));
    f.put("degraded", Json::opt_text(degraded_note));
    f.put("recommendations", Json::array(shown_recommendations(recommendations)));
    speak(summary.as_str(), f.object())
}

// ── the recommendation tool ─────────────────────────────────────────────────

/// The recommendation tool and the services it uses.
#[derive(Debug)]
pub struct MediaRecommend {
    pub plex: Option<PlexClient>,
    pub radarr: Option<RadarrClient>,
    pub sonarr: Option<SonarrClient>,
}

/// A call for recommendations as it was read.
#[derive(Debug, PartialEq, Eq)]
pub struct RecommendPlan {
    pub limit: u64,
    pub scope: HistoryScope,
}

/// How many recommendations a call asks for: five where it does not say, and at least one.
pub open spec fn limit_view(args: JsonView) -> int {
    match args.at("limit"@).uint64() {
        Some(n) => if n < 1 {
            1
        } else {
            n
        },
        None => 5,
    }
}

/// The account that a call names.
pub open spec fn named_account(args: JsonView) -> Option<Seq<char>> {
    match args.text_at("account_id"@) {
        Some(s) => if trimmed(s).len() > 0 {
            Some(trimmed(s))
        } else {
            None
        },
        None => None,
    }
}

/// Reads the account that a call names.
pub fn account_argument(args: &Json) -> (r: Option<&str>)
    ensures
        opt_str(r) == named_account(args@),
{
    match args.str_at("account_id") {
        Some(s) => {
            let t = trim(s);
            if t.is_empty() {
                None
            } else {
                Some(t)
            }
        },
        None => None,
    }
}

/// What was asked of the services, in the order in which it is asked. What is absent is not asked.
#[derive(Debug)]
pub struct RecommendRequests {
    pub history: Option<HttpRequest>,
    pub radarr: Option<HttpRequest>,
    pub sonarr: Option<HttpRequest>,
}

/// The content of [`RecommendRequests`].
pub struct RequestsView {
    pub history: Option<RequestView>,
    pub radarr: Option<RequestView>,
    pub sonarr: Option<RequestView>,
}

impl View for RecommendRequests {
    type V = RequestsView;

    open spec fn view(&self) -> RequestsView {
        RequestsView {
            history: opt_request(self.history),
            radarr: opt_request(self.radarr),
            sonarr: opt_request(self.sonarr),
        }
    }
}

/// What the services replied to what was asked.
#[derive(Debug)]
pub struct RecommendReplies {
    pub history: Option<HttpReply>,
    pub radarr: Option<HttpReply>,
    pub sonarr: Option<HttpReply>,
}

/// The history that a recommendation goes by: the caller's own, out of the reply to the question
/// for it, and none for a caller without an account.
pub open spec fn scoped_history(scope: ScopeView, history: Option<ReplyView>) -> Seq<JsonView> {
    match (scope, history) {
        (ScopeView::Account(account), Some(reply)) => match reply_content(Service::Plex, reply) {
            Ok(raw) => watched_by(plex_items(raw), account),
            Err(_) => Seq::empty(),
        },
        _ => Seq::empty(),
    }
}

/// The library candidates that a reply lists; none where there was no question or no good reply.
pub open spec fn listed_candidates(
    service: Service,
    reply: Option<ReplyView>,
    media_type: Seq<char>,
) -> Seq<LibraryView> {
    match reply {
        Some(r) => match reply_content(service, r) {
            Ok(raw) => match raw.items() {
                Some(items) => library_of(items, media_type),
                None => Seq::empty(),
            },
            Err(_) => Seq::empty(),
        },
        None => Seq::empty(),
    }
}

/// Whether a question was answered with an error.
pub open spec fn went_wrong(service: Service, reply: Option<ReplyView>) -> bool {
    reply matches Some(r) && reply_content(service, r) is Err
}

/// What is said about services that could not be reached: of the first one only.
pub open spec fn degraded_note(
    scope: ScopeView,
    history: Option<ReplyView>,
    radarr: Option<ReplyView>,
    sonarr: Option<ReplyView>,
) -> Option<Seq<char>> {
    if scope is Account && went_wrong(Service::Plex, history) {
        Some("couldn't reach Plex, so this isn't personalized right now"@)
    } else if went_wrong(Service::Radarr, radarr) {
        Some("couldn't reach Radarr for movie picks"@)
    } else if went_wrong(Service::Sonarr, sonarr) {
        Some("couldn't reach Sonarr for show picks"@)
    } else {
        None
    }
}

/// The suggestions that the replies of the services lead to.
pub open spec fn suggestions_from(
    scope: ScopeView,
    history: Option<ReplyView>,
    radarr: Option<ReplyView>,
    sonarr: Option<ReplyView>,
) -> Seq<SuggestionView> {
    suggestions_for(
        profile_of(scoped_history(scope, history)),
        listed_candidates(Service::Radarr, radarr, "movie"@) + listed_candidates(
            Service::Sonarr,
            sonarr,
            "tv"@,
        ),
    )
}

/// The final answer, from the scored suggestions.
pub open spec fn final_answer(
    scope: ScopeView,
    limit: int,
    scored: Seq<RecommendationView>,
    note: Option<Seq<char>>,
) -> JsonView {
    let best = best_of(scored, limit);
    let personalized = scope is Account;
    let has_signal = exists|i: int|
        0 <= i < best.len() && (#[trigger] best[i]).matched_genres.len() > 0;
    recommend_answer(
        best,
        personalized && best.len() > 0 && !has_signal,
        personalized,
        note,
    )
}

/// The suggestions that the replies lead to, and what is said about services that could not be
/// reached.
#[derive(Debug)]
pub struct Suggested {
    pub suggestions: Vec<Suggestion>,
    pub note: Option<&'static str>,
}

/// The content of an optional constant text.
pub open spec fn opt_static(s: Option<&'static str>) -> Option<Seq<char>> {
    match s {
        Some(x) => Some(x@),
        None => None,
    }
}

fn list_candidates(
    service: Service,
    reply: &Option<HttpReply>,
    media_type: &str,
    out: &mut Vec<LibraryCandidate>,
) -> (r: bool)
    ensures
        r == went_wrong(service, opt_reply(*reply)),
        library_views(final(out)@) == library_views(old(out)@) + listed_candidates(
            service,
            opt_reply(*reply),
            media_type@,
        ),
{
    assert(library_views(out@) + Seq::<LibraryView>::empty() =~= library_views(out@));
    match reply {
        Some(x) => match map_reply(service, x) {
            Ok(raw) => {
                if let Some(items) = raw.as_array() {
                    extract_candidates(items, media_type, out);
                }
                false
            },
            Err(_) => true,
        },
        None => false,
    }
}

impl MediaRecommend {
    /// The tool for the values of the services' variables.
    pub fn from_env(
        plex: Result<PlexClient, ToolError>,
        radarr: Result<RadarrClient, ToolError>,
        sonarr: Result<SonarrClient, ToolError>,
    ) -> (r: MediaRecommend)
        ensures
            r.plex == plex.ok(),
            r.radarr == radarr.ok(),
            r.sonarr == sonarr.ok(),
    {
        MediaRecommend { plex: plex.ok(), radarr: radarr.ok(), sonarr: sonarr.ok() }
    }

    /// Reads a call. Whose history it may look at is settled here, before anything is asked.
    pub fn plan(args: &Json, caller: &CallerContext) -> (r: Result<RecommendPlan, ToolError>)
        ensures
            match scope_of(named_account(args@), caller.account()) {
                Ok(scope) => r matches Ok(p) && p.limit == limit_view(args@) && p.scope@ == scope,
                Err(e) => r matches Err(f) && f@ == e,
            },
    {
        let limit: u64 = match args.get("limit") {
            Some(v) => match v.as_u64() {
                Some(n) => if n < 1 {
                    1
                } else {
                    n
                },
                None => 5,
            },
            None => 5,
        };
        match resolve_history_scope(account_argument(args), caller) {
            Ok(scope) => Ok(RecommendPlan { limit, scope }),
            Err(e) => Err(e),
        }
    }

    /// What to ask. The history is asked for only where the caller has an account.
    pub open spec fn requests_view(&self, scope: ScopeView) -> RequestsView {
        RequestsView {
            history: match (scope, self.plex) {
                (ScopeView::Account(_), Some(c)) => Some(
                    c.read_view("/status/sessions/history/all"@),
                ),
                _ => None,
            },
            radarr: match self.radarr {
                Some(c) => Some(c.call_view(crate::http::Method::Get, "/api/v3/movie"@)),
                None => None,
            },
            sonarr: match self.sonarr {
                Some(c) => Some(c.call_view(crate::http::Method::Get, "/api/v3/series"@)),
                None => None,
            },
        }
    }

    /// Says what to ask as [`Self::requests_view`] says.
    pub fn requests(&self, plan: &RecommendPlan) -> (r: RecommendRequests)
        ensures
            r@ == self.requests_view(plan.scope@),
    {
        let history = match (&plan.scope, &self.plex) {
            (HistoryScope::Account(_), Some(c)) => Some(c.history()),
            _ => None,
        };
        let radarr = match &self.radarr {
            Some(c) => Some(c.library()),
            None => None,
        };
        let sonarr = match &self.sonarr {
            Some(c) => Some(c.library()),
            None => None,
        };
        RecommendRequests { history, radarr, sonarr }
    }

    /// The suggestions that the replies lead to.
    pub fn suggestions(plan: &RecommendPlan, replies: &RecommendReplies) -> (r: Suggested)
        ensures
            suggestion_views(r.suggestions@) == suggestions_from(
                plan.scope@,
                opt_reply(replies.history),
                opt_reply(replies.radarr),
                opt_reply(replies.sonarr),
            ),
            opt_static(r.note) == degraded_note(
                plan.scope@,
                opt_reply(replies.history),
                opt_reply(replies.radarr),
                opt_reply(replies.sonarr),
            ),
    {
        let mut history: Vec<Json> = Vec::new();
        assert(jsons(history@) =~= Seq::empty());
        let mut note: Option<&'static str> = None;
        match (&plan.scope, &replies.history) {
            (HistoryScope::Account(account), Some(reply)) => match map_reply(
                Service::Plex,
                reply,
            ) {
                Ok(raw) => {
                    let items = read_plex_items(&raw);
                    history = filter_to_account(&items, account.as_str());
                },
                Err(_) => {
                    note = Some("couldn't reach Plex, so this isn't personalized right now");
                },
            },
            _ => {},
        }
        let profile = build_taste_profile(&history);
        let mut candidates: Vec<LibraryCandidate> = Vec::new();
        assert(library_views(candidates@) =~= Seq::<LibraryView>::empty());
        let no_radarr = list_candidates(
            Service::Radarr,
            &replies.radarr,
            "movie",
            &mut candidates,
        );
        let ghost films = library_views(candidates@);
        assert(films =~= listed_candidates(Service::Radarr, opt_reply(replies.radarr), "movie"@));
        let no_sonarr = list_candidates(Service::Sonarr, &replies.sonarr, "tv", &mut candidates);
        if note.is_none() {
            if no_radarr {
                note = Some("couldn't reach Radarr for movie picks");
            } else if no_sonarr {
                note = Some("couldn't reach Sonarr for show picks");
            }
        }
        Suggested { suggestions: suggest(&profile, &candidates), note }
    }

    /// The answer, from the scored suggestions.
    pub fn finish(plan: &RecommendPlan, scored: &Vec<Recommendation>, note: Option<&'static str>)
        -> (r: Json)
        ensures
            r@ == final_answer(
                plan.scope@,
                plan.limit as int,
                recommendation_views(scored@),
                opt_static(note),
            ),
    {
        let best = score_recommendations(scored, plan.limit);
        let ghost view = recommendation_views(best@);
        let personalized = match &plan.scope {
            HistoryScope::Account(_) => true,
            HistoryScope::Unentitled => false,
        };
        let mut has_signal = false;
        let mut i: usize = 0;
        while i < best.len()
            invariant
                i <= best.len(),
                view == recommendation_views(best@),
                has_signal == exists|k: int|
                    0 <= k < i && (#[trigger] view[k]).matched_genres.len() > 0,
            decreases best.len() - i,
        {
            assert(view[i as int] == best@[i as int]@);
            assert(view[i as int].matched_genres.len() == best@[i as int].matched_genres@.len());
            if best[i].matched_genres.len() > 0 {
                has_signal = true;
            }
            i += 1;
        }
        build_recommend_response(
            &best,
            personalized && best.len() > 0 && !has_signal,
            personalized,
            note,
        )
    }
}

/// What a suggestion is worth: the bits of its score, and the score's decimal text rounded to
/// thousandths.
#[derive(Debug)]
pub struct Rating {
    pub score: u64,
    pub shown: String,
}

/// The suggestions with what they are worth.
pub open spec fn rated(suggestions: Seq<SuggestionView>, ratings: Seq<Rating>) -> Seq<
    RecommendationView,
> {
    Seq::new(suggestions.len(), |i: int| suggestions[i].scored(ratings[i].score, ratings[i].shown@))
}

impl Ratable for Suggestion {
    type Rating = Rating;

    type Rated = Recommendation;

    open spec fn becomes(&self, rating: &Rating, rated: &Recommendation) -> bool {
        rated@ == self@.scored(rating.score, rating.shown@)
    }

    fn with_rating(self, rating: &Rating) -> Recommendation {
        self.scored(rating.score, owned(rating.shown.as_str()))
    }
}

fn rate(suggestions: Vec<Suggestion>, ratings: &Vec<Rating>) -> (r: Vec<Recommendation>)
    requires
        suggestions.len() == ratings.len(),
    ensures
        recommendation_views(r@) == rated(suggestion_views(suggestions@), ratings@),
{
    let ghost expected = rated(suggestion_views(suggestions@), ratings@);
    let out = rate_all(suggestions, ratings);
    assert(recommendation_views(out@) =~= expected);
    out
}

/// Where a call for recommendations stands.
#[derive(Debug)]
pub enum RecommendStep {
    /// The answer is ready.
    Done(Json),
    /// Send these requests and come back with the replies.
    Ask(RecommendRequests),
    /// Say what these suggestions are worth and come back with the ratings.
    Rate(Vec<Suggestion>),
    /// The call failed.
    Failed(ToolError),
}

/// The content of a [`RecommendStep`].
pub enum RecommendView {
    Done(JsonView),
    Ask(RequestsView),
    Rate(Seq<SuggestionView>),
    Failed(ErrorView),
}

impl View for RecommendStep {
    type V = RecommendView;

    open spec fn view(&self) -> RecommendView {
        match *self {
            RecommendStep::Done(answer) => RecommendView::Done(answer@),
            RecommendStep::Ask(requests) => RecommendView::Ask(requests@),
            RecommendStep::Rate(suggestions) => RecommendView::Rate(
                suggestion_views(suggestions@),
            ),
            RecommendStep::Failed(e) => RecommendView::Failed(e@),
        }
    }
}

impl RecommendReplies {
    /// The suggestions that these replies lead to.
    pub open spec fn suggested(self, scope: ScopeView) -> Seq<SuggestionView> {
        suggestions_from(
            scope,
            opt_reply(self.history),
            opt_reply(self.radarr),
            opt_reply(self.sonarr),
        )
    }

    /// What is said about services that could not be reached.
    pub open spec fn note(self, scope: ScopeView) -> Option<Seq<char>> {
        degraded_note(
            scope,
            opt_reply(self.history),
            opt_reply(self.radarr),
            opt_reply(self.sonarr),
        )
    }
}

impl MediaRecommend {
    /// Where a call stands once the services have replied, and once as many suggestions were rated
    /// as there are. `own` is the caller's account.
    pub open spec fn run_view(
        &self,
        args: JsonView,
        own: Option<Seq<char>>,
        replies: Option<RecommendReplies>,
        ratings: Seq<Rating>,
    ) -> RecommendView {
        match scope_of(named_account(args), own) {
            Err(e) => RecommendView::Failed(e),
            Ok(scope) => match replies {
                None => RecommendView::Ask(self.requests_view(scope)),
                Some(heard) => if ratings.len() != heard.suggested(scope).len() {
                    RecommendView::Rate(heard.suggested(scope))
                } else {
                    RecommendView::Done(
                        final_answer(
                            scope,
                            limit_view(args),
                            rated(heard.suggested(scope), ratings),
                            heard.note(scope),
                        ),
                    )
                },
            },
        }
    }

    /// Carries a call on to its next step as [`Self::run_view`] says.
    pub fn run(
        &self,
        args: &Json,
        caller: &CallerContext,
        replies: &Option<RecommendReplies>,
        ratings: &Vec<Rating>,
    ) -> (r: RecommendStep)
        ensures
            r@ == self.run_view(args@, caller.account(), *replies, ratings@),
    {
        let plan = match MediaRecommend::plan(args, caller) {
            Ok(p) => p,
            Err(e) => {
                return RecommendStep::Failed(e);
            },
        };
        match replies {
            None => RecommendStep::Ask(self.requests(&plan)),
            Some(heard) => {
                let suggested = MediaRecommend::suggestions(&plan, heard);
                let suggestions = suggested.suggestions;
                assert(suggestion_views(suggestions@).len() == suggestions@.len());
                if ratings.len() != suggestions.len() {
                    return RecommendStep::Rate(suggestions);
                }
                let scored = rate(suggestions, ratings);
                RecommendStep::Done(MediaRecommend::finish(&plan, &scored, suggested.note))
            },
        }
    }
}

/// A caller without an account never causes a look at anybody's history.
pub proof fn guests_read_no_history(
    tool: MediaRecommend,
    args: JsonView,
    replies: Option<RecommendReplies>,
    ratings: Seq<Rating>,
)
    ensures
        tool.run_view(args, None, replies, ratings) matches RecommendView::Ask(requests)
            ==> requests.history is None,
{
}

/// A call that names an account that is not the caller's own fails before anything is asked, and
/// says the same whatever the services hold.
pub proof fn foreign_accounts_are_refused(
    tool: MediaRecommend,
    args: JsonView,
    own: Option<Seq<char>>,
    replies: Option<RecommendReplies>,
    ratings: Seq<Rating>,
)
    requires
        named_account(args) is Some,
        named_account(args) != own,
    ensures
        tool.run_view(args, own, replies, ratings) == RecommendView::Failed(
            ErrorView::InvalidArgument(FOREIGN_ACCOUNT_REFUSAL@),
        ),
{
}

/// No service can fail a call for recommendations: it only fails where it names an account that is
/// not the caller's own.
pub proof fn services_never_fail_a_recommendation(
    tool: MediaRecommend,
    args: JsonView,
    own: Option<Seq<char>>,
    replies: Option<RecommendReplies>,
    ratings: Seq<Rating>,
)
    ensures
        tool.run_view(args, own, replies, ratings) is Failed <==> scope_of(
            named_account(args),
            own,
        ) is Err,
{
}

/// For a caller without an account, nobody's history matters: whatever a history reply said, the
/// suggestions and the notes are the same.
pub proof fn unentitled_suggestions_ignore_history(
    history: Option<ReplyView>,
    other: Option<ReplyView>,
    radarr: Option<ReplyView>,
    sonarr: Option<ReplyView>,
)
    ensures
        suggestions_from(ScopeView::Unentitled, history, radarr, sonarr) == suggestions_from(
            ScopeView::Unentitled,
            other,
            radarr,
            sonarr,
        ),
        degraded_note(ScopeView::Unentitled, history, radarr, sonarr) == degraded_note(
            ScopeView::Unentitled,
            other,
            radarr,
            sonarr,
        ),
{
}

/// For a caller with an account, what others watched does not matter: two histories that hold the
/// same for that account lead to the same suggestions.
pub proof fn only_own_history_counts(
    account: Seq<char>,
    a: Seq<JsonView>,
    b: Seq<JsonView>,
    candidates: Seq<LibraryView>,
)
    requires
        watched_by(a, account) == watched_by(b, account),
    ensures
        suggestions_for(profile_of(watched_by(a, account)), candidates) == suggestions_for(
            profile_of(watched_by(b, account)),
            candidates,
        ),
{
}

// ── continue watching, and what is new ──────────────────────────────────────

/// The titles among a list of items, in order.
pub open spec fn titles_in(items: Seq<JsonView>) -> Seq<Seq<char>>
    decreases items.len(),
{
    if items.len() == 0 {
        Seq::empty()
    } else {
        let front = titles_in(items.drop_last());
        match title_view(items.last()) {
            Some(t) => front.push(t),
            None => front,
        }
    }
}

fn collect_titles(items: &Vec<Json>) -> (r: Vec<String>)
    ensures
        texts(r@) == titles_in(jsons(items@)),
{
    let ghost view = jsons(items@);
    let mut out: Vec<String> = Vec::new();
    let mut i: usize = 0;
    assert(view.take(0) =~= Seq::<JsonView>::empty());
    assert(texts(out@) =~= Seq::<Seq<char>>::empty());
    while i < items.len()
        invariant
            i <= items.len(),
            view == jsons(items@),
            texts(out@) == titles_in(view.take(i as int)),
        decreases items.len() - i,
    {
        let ghost next = view.take(i + 1);
        let ghost before = texts(out@);
        assert(next.drop_last() =~= view.take(i as int));
        assert(next.last() == items@[i as int]@);
        if let Some(t) = item_title(&items[i]) {
            out.push(owned(t));
            assert(texts(out@) =~= before.push(t@));
        }
        i += 1;
    }
    assert(view.take(view.len() as int) =~= view);
    out
}

/// What is said about a list of titles.
pub open spec fn engagement_summary(kind: Seq<char>, titles: Seq<Seq<char>>) -> Seq<char> {
    let on_deck = kind == "on_deck"@;
    if titles.len() == 0 {
        if on_deck {
            "Nothing on deck right now."@
        } else {
            "Nothing recently added."@
        }
    } else {
        (if on_deck {
            "Up next: "@
        } else {
            "Recently added: "@
        }) + joined(first_of(titles, 5), ", "@) + "."@
    }
}

/// The structured content of a list of titles.
pub open spec fn engagement_fields(titles: Seq<Seq<char>>) -> Seq<(Seq<char>, JsonView)> {
    no_fields().push(("count"@, JsonView::Int(titles.len() as int))).push(
        ("titles"@, text_array_view(titles)),
    )
}

/// The answer with a list of titles.
pub open spec fn engagement_answer(kind: Seq<char>, items: Seq<JsonView>) -> JsonView {
    spoken(
        engagement_summary(kind, titles_in(items)),
        JsonView::Object(engagement_fields(titles_in(items))),
    )
}

fn engagement_parts(kind: &str, items: &Vec<Json>) -> (r: (String, Fields))
    ensures
        r.0@ == engagement_summary(kind@, titles_in(jsons(items@))),
        r.1@ == engagement_fields(titles_in(jsons(items@))),
{
    let titles = collect_titles(items);
    let ghost all = texts(titles@);
    let on_deck = same(kind, "on_deck");
    let mut f = Fields::new();
    f.put("count", Json::uint(titles.len() as u64));
    f.put("titles", Json::text_array(&titles));
    let summary = if titles.len() == 0 {
        owned(
            if on_deck {
                "Nothing on deck right now."
            } else {
                "Nothing recently added."
            },
        )
    } else {
        let mut shown = titles;
        shown.truncate(5);
        assert(texts(shown@) =~= first_of(all, 5));
        let list = join(&shown, ", ");
        cat3(
            if on_deck {
                "Up next: "
            } else {
                "Recently added: "
            },
            list.as_str(),
            ".",
        )
    };
    (summary, f)
}

/// Builds the answer with a list of titles as [`engagement_answer`] says.
pub fn build_engagement_response(kind: &str, items: &Vec<Json>) -> (r: Json)
    ensures
        r@ == engagement_answer(kind@, jsons(items@)),
{
    let (summary, f) = engagement_parts(kind, items);
    speak(summary.as_str(), f.object())
}

/// What is said to a caller who may not see what to continue watching: the same to everyone.
pub const ON_DECK_WITHHELD: &'static str =
    "Continue-watching is personal to each household member, and I can't tell which one you are, so I'm not showing it.";

/// The answer to a caller who may not see what to continue watching.
pub open spec fn withheld_answer() -> JsonView {
    spoken(
        ON_DECK_WITHHELD@,
        JsonView::Object(
            no_fields().push(("personalized"@, JsonView::Bool(false))).push(
                ("count"@, JsonView::Int(0)),
            ).push(("titles"@, JsonView::Array(Seq::empty()))),
        ),
    )
}

/// The continue-watching tool and the server it asks.
#[derive(Debug)]
pub struct MediaOnDeck {
    pub plex: Option<PlexClient>,
}

/// The step that asks a Plex server for something, or fails where none is configured.
pub open spec fn plex_step(plex: Option<PlexClient>, path: Seq<char>) -> StepView {
    match plex {
        Some(c) => StepView::Send(c.read_view(path)),
        None => StepView::Failed(ErrorView::NotConfigured("PLEX_URL/PLEX_TOKEN not set"@), None),
    }
}

/// Whether a caller may see what to continue watching: only the one account that it belongs to.
pub open spec fn may_see_on_deck(own: Option<Seq<char>>, token_account: Option<Seq<char>>) -> bool {
    own is Some && own == token_account
}

impl MediaOnDeck {
    /// Checks whether a caller may see what to continue watching as [`may_see_on_deck`] says.
    /// `token_account` is the account that the server's token belongs to.
    pub fn caller_may_see(caller: &CallerContext, token_account: Option<&str>) -> (r: bool)
        ensures
            r == may_see_on_deck(caller.account(), opt_str(token_account)),
    {
        match (caller.media_account(), token_account) {
            (Some(own), Some(token)) => same(own, token),
            _ => false,
        }
    }

    /// The first step. A caller who may not see the answer is told so before anything is asked, and
    /// before it matters whether a server is configured.
    pub open spec fn start_view(
        &self,
        own: Option<Seq<char>>,
        token_account: Option<Seq<char>>,
    ) -> StepView {
        if may_see_on_deck(own, token_account) {
            plex_step(self.plex, "/library/onDeck"@)
        } else {
            StepView::Done(withheld_answer(), None)
        }
    }

    /// Takes the first step as [`Self::start_view`] says.
    pub fn start(&self, caller: &CallerContext, token_account: Option<&str>) -> (r: Step)
        ensures
            r@ == self.start_view(caller.account(), opt_str(token_account)),
    {
        if !MediaOnDeck::caller_may_see(caller, token_account) {
            let none: Vec<Json> = Vec::new();
            assert(jsons(none@) =~= Seq::empty());
            let mut f = Fields::new();
            f.put("personalized", Json::Bool(false));
            f.put("count", Json::integer(0));
            f.put("titles", Json::array(none));
            return Step::Done(speak(ON_DECK_WITHHELD, f.object()), None);
        }
        match &self.plex {
            Some(c) => Step::Send(c.on_deck()),
            None => Step::Failed(ToolError::not_configured("PLEX_URL/PLEX_TOKEN not set"), None),
        }
    }

    /// The last step: the answer with what to continue watching.
    pub open spec fn finish_view(reply: ReplyView) -> StepView {
        match reply_content(Service::Plex, reply) {
            Err(e) => StepView::Failed(e, None),
            Ok(raw) => StepView::Done(
                spoken(
                    engagement_summary("on_deck"@, titles_in(plex_items(raw))),
                    JsonView::Object(
                        engagement_fields(titles_in(plex_items(raw))).push(
                            ("personalized"@, JsonView::Bool(true)),
                        ),
                    ),
                ),
                None,
            ),
        }
    }

    /// Takes the last step as [`Self::finish_view`] says.
    pub fn finish(reply: &HttpReply) -> (r: Step)
        ensures
            r@ == MediaOnDeck::finish_view(reply@),
    {
        match map_reply(Service::Plex, reply) {
            Err(e) => Step::Failed(e, None),
            Ok(raw) => {
                let items = read_plex_items(&raw);
                let (summary, fields) = engagement_parts("on_deck", &items);
                let f = fields.with("personalized", Json::Bool(true));
                Step::Done(speak(summary.as_str(), f.object()), None)
            },
        }
    }
}

impl MediaOnDeck {
    /// Where a call stands after some replies. `own` is the caller's account.
    pub open spec fn run_view(
        &self,
        own: Option<Seq<char>>,
        token_account: Option<Seq<char>>,
        replies: Seq<ReplyView>,
    ) -> StepView {
        let first = self.start_view(own, token_account);
        if !(first is Send) || replies.len() == 0 {
            first
        } else {
            MediaOnDeck::finish_view(replies[0])
        }
    }

    /// Carries a call on to its next step as [`Self::run_view`] says.
    pub fn run(&self, caller: &CallerContext, token_account: Option<&str>, replies: &Vec<HttpReply>)
        -> (r: Step)
        ensures
            r@ == self.run_view(
                caller.account(),
                opt_str(token_account),
                replies_view(replies@),
            ),
    {
        let first = self.start(caller, token_account);
        if !first.is_send() || replies.len() == 0 {
            return first;
        }
        MediaOnDeck::finish(&replies[0])
    }
}

/// A caller whom the row does not belong to gets one and the same answer, whatever is configured,
/// whatever the server holds, and whoever the caller is.
pub proof fn on_deck_is_withheld_alike(
    tool: MediaOnDeck,
    own: Option<Seq<char>>,
    token_account: Option<Seq<char>>,
    replies: Seq<ReplyView>,
)
    requires
        own is None || token_account is None || own != token_account,
    ensures
        tool.run_view(own, token_account, replies) == StepView::Done(withheld_answer(), None),
{
}

/// The tool that lists what is new, and the server it asks.
#[derive(Debug)]
pub struct MediaRecentlyAdded {
    pub plex: Option<PlexClient>,
}

impl MediaRecentlyAdded {
    /// The first step: the server is asked.
    pub fn start(&self) -> (r: Step)
        ensures
            r@ == plex_step(self.plex, "/library/recentlyAdded"@),
    {
        match &self.plex {
            Some(c) => Step::Send(c.recently_added()),
            None => Step::Failed(ToolError::not_configured("PLEX_URL/PLEX_TOKEN not set"), None),
        }
    }

    /// The last step: the answer with what is new.
    pub open spec fn finish_view(reply: ReplyView) -> StepView {
        match reply_content(Service::Plex, reply) {
            Err(e) => StepView::Failed(e, None),
            Ok(raw) => StepView::Done(
                engagement_answer("recently_added"@, plex_items(raw)),
                None,
            ),
        }
    }

    /// Where a call stands after some replies.
    pub open spec fn run_view(&self, replies: Seq<ReplyView>) -> StepView {
        let first = plex_step(self.plex, "/library/recentlyAdded"@);
        if !(first is Send) || replies.len() == 0 {
            first
        } else {
            MediaRecentlyAdded::finish_view(replies[0])
        }
    }

    /// Carries a call on to its next step as [`Self::run_view`] says: the server is asked, and its
    /// reply answered.
    pub fn execute(&self, replies: &Vec<HttpReply>) -> (r: Step)
        ensures
            r@ == self.run_view(replies_view(replies@)),
    {
        let first = self.start();
        if !first.is_send() || replies.len() == 0 {
            return first;
        }
        MediaRecentlyAdded::finish(&replies[0])
    }

    /// Takes the last step as [`Self::finish_view`] says.
    pub fn finish(reply: &HttpReply) -> (r: Step)
        ensures
            r@ == MediaRecentlyAdded::finish_view(reply@),
    {
        match map_reply(Service::Plex, reply) {
            Err(e) => Step::Failed(e, None),
            Ok(raw) => {
                let items = read_plex_items(&raw);
                Step::Done(build_engagement_response("recently_added", &items), None)
            },
        }
    }
}

// ── registration ────────────────────────────────────────────────────────────

/// What the recommendation tool says about itself.
pub open spec fn recommend_info() -> InfoView {
    InfoView {
        name: "media_recommend"@,
        description: "Suggest movies/shows already in the library that haven't been watched yet, ranked by a taste profile built fresh from recent Plex watch history (genre/director overlap, recency-weighted). Each suggestion carries a narration-friendly rationale, e.g. \"because you watched Dune (sci-fi)\". Stateless -- computed newly each call from this call's own Plex history, no persisted taste memory. Falls back to a plain library browse (noting thin signal) for a new/sparse-history user, and degrades to arr-only library picks (noting Plex is unreachable) rather than failing."@,
        parameters: optional_object_view(no_fields()
            .push(("limit"@, described_view("integer"@, "Maximum number of recommendations to return (default 5)."@)))
            .push(("account_id"@, described_view("string"@, "Optional: your OWN media account id. It may not name another household member's account -- doing so is refused, not silently ignored. Omit it and your own account is used."@)))),
    }
}

impl MediaRecommend {
    /// What this tool says about itself.
    pub fn info() -> (r: ToolInfo)
        ensures
            r@ == recommend_info(),
    {
        let parameters = optional_object(Fields::new()
            .with("limit", described("integer", "Maximum number of recommendations to return (default 5)."))
            .with("account_id", described("string", "Optional: your OWN media account id. It may not name another household member's account -- doing so is refused, not silently ignored. Omit it and your own account is used.")));
        describe(
            "media_recommend",
            "Suggest movies/shows already in the library that haven't been watched yet, ranked by a taste profile built fresh from recent Plex watch history (genre/director overlap, recency-weighted). Each suggestion carries a narration-friendly rationale, e.g. \"because you watched Dune (sci-fi)\". Stateless -- computed newly each call from this call's own Plex history, no persisted taste memory. Falls back to a plain library browse (noting thin signal) for a new/sparse-history user, and degrades to arr-only library picks (noting Plex is unreachable) rather than failing.",
            parameters,
        )
    }
}

/// What the continue-watching tool says about itself.
pub open spec fn on_deck_info() -> InfoView {
    InfoView {
        name: "media_on_deck"@,
        description: "List what's currently on deck / continue-watching in Plex -- in-progress episodes and next-up in a show. Read-only."@,
        parameters: optional_object_view(no_fields()),
    }
}

impl MediaOnDeck {
    /// What this tool says about itself.
    pub fn info() -> (r: ToolInfo)
        ensures
            r@ == on_deck_info(),
    {
        let parameters = optional_object(Fields::new());
        describe(
            "media_on_deck",
            "List what's currently on deck / continue-watching in Plex -- in-progress episodes and next-up in a show. Read-only.",
            parameters,
        )
    }
}

/// What the tool that lists what is new says about itself.
pub open spec fn recently_added_info() -> InfoView {
    InfoView {
        name: "media_recently_added"@,
        description: "List titles recently added to the Plex library. Read-only, not personalized -- pairs with media_recommend for a fuller \"what's new / what might I like\" surface."@,
        parameters: optional_object_view(no_fields()),
    }
}

impl MediaRecentlyAdded {
    /// What this tool says about itself.
    pub fn info() -> (r: ToolInfo)
        ensures
            r@ == recently_added_info(),
    {
        let parameters = optional_object(Fields::new());
        describe(
            "media_recently_added",
            "List titles recently added to the Plex library. Read-only, not personalized -- pairs with media_recommend for a fuller \"what's new / what might I like\" surface.",
            parameters,
        )
    }
}

/// Offers the recommendation tool and those for what to continue and what is new.
pub fn register(registry: &mut ToolRegistry)
    ensures
        final(registry)@ == with_tool(
            with_tool(with_tool(old(registry)@, recommend_info()), on_deck_info()),
            recently_added_info(),
        ),
{
    registry.register_or_replace(MediaRecommend::info());
    registry.register_or_replace(MediaOnDeck::info());
    registry.register_or_replace(MediaRecentlyAdded::info());
}

} // verus!
