//! Finding titles, and finding out where a title already is.
//!
//! How alike two titles are is decided here as a comparison of their words and letters; the score
//! that such a comparison is worth is a number given with it. What a score decides (which
//! candidates are relevant, how they rank, whether the best two are too close to call) is decided
//! here again.
use vstd::prelude::*;
use vstd::utf8::*;

use crate::http::{opt_reply, HttpReply, HttpRequest, ReplyView, RequestView};
use crate::json::{
    bits_of, copy_items, jsons, no_fields, number_bits, number_text, read_view, text_or_null,
    Fields, Json, JsonView,
};
use crate::media::clients::{map_reply, reply_content, Service};
use crate::media::clients::plex::PlexClient;
use crate::media::clients::radarr::RadarrClient;
use crate::media::clients::sonarr::SonarrClient;
use crate::media::clients::tmdb::TmdbClient;
use crate::number::{float_rank, rank_of, scaled};
use crate::order::{keys_view, rank_indices, ranking};
use crate::rating::{rate_all, Ratable};
use crate::registry::{with_tool, InfoView, ToolInfo, ToolRegistry};
use crate::schema::{
    describe, described, described_view, no_texts, required_object, required_object_view, TextList,
};
use crate::text::{
    cat2, cat3, cat4, cat5, contains, distinct, has_substring, has_text, join, joined,
    lemma_words_from, lowercase, occurs_at, opt_str, opt_text, owned, same, split_words, texts,
    to_lower, trim, trimmed, words_of,
};
use crate::tool::{speak, spoken, ErrorView, Step, StepView, ToolError};

verus! {

// ── similarity ──────────────────────────────────────────────────────────────

/// A title in the form in which titles are compared.
pub fn normalize(s: &str) -> (r: String)
    ensures
        r@ == lowercase(trimmed(s@)),
{
    to_lower(trim(s))
}

/// How alike two titles are.
#[derive(Debug, Clone, Copy, PartialEq, Eq, Structural)]
pub enum Similarity {
    /// Nothing to compare.
    Unrelated,
    /// The same.
    Exact,
    /// One stands within the other; the lengths are in bytes.
    Substring { shorter: usize, longer: usize },
    /// Neither: how many words they share, out of how many they have together.
    Words { shared: u128, together: u128 },
}

/// The length of a text in bytes.
pub open spec fn byte_length(s: Seq<char>) -> usize {
    encode_utf8(s).len() as usize
}

/// How alike two normalized titles are.
pub open spec fn similarity_of(q: Seq<char>, t: Seq<char>) -> Similarity {
    let qw = words_of(q).to_set();
    let tw = words_of(t).to_set();
    if q.len() == 0 || t.len() == 0 {
        Similarity::Unrelated
    } else if q == t {
        Similarity::Exact
    } else if has_substring(t, q) || has_substring(q, t) {
        if byte_length(q) <= byte_length(t) {
            Similarity::Substring { shorter: byte_length(q), longer: byte_length(t) }
        } else {
            Similarity::Substring { shorter: byte_length(t), longer: byte_length(q) }
        }
    } else if words_of(q).len() == 0 || words_of(t).len() == 0 {
        Similarity::Unrelated
    } else {
        Similarity::Words {
            shared: qw.intersect(tw).len() as u128,
            together: (qw + tw).len() as u128,
        }
    }
}

/// What a comparison is worth in thousandths, as a numerator and a denominator: nothing where there
/// is nothing to compare, up to 550 for shared words by their part in all words, 600 and up to 300
/// more for one title within another by its part in the longer one, and 1000 for equal titles.
pub open spec fn worth_of(s: Similarity) -> (int, int) {
    match s {
        Similarity::Unrelated => (0, 1),
        Similarity::Words { shared, together } => (550 * shared, together as int),
        Similarity::Substring { shorter, longer } => (600 * longer + 300 * shorter, longer as int),
        Similarity::Exact => (1000, 1),
    }
}

/// Whether one comparison is worth more than another.
pub open spec fn is_worth_more(a: Similarity, b: Similarity) -> bool {
    worth_of(a).0 * worth_of(b).1 > worth_of(b).0 * worth_of(a).1
}

/// Whether a comparison is worth what its kind allows: shared words at most 550, one title within
/// another more than 600 and less than 900, equal titles 1000.
pub open spec fn keeps_its_band(s: Similarity) -> bool {
    let (worth, of) = worth_of(s);
    of > 0 && match s {
        Similarity::Unrelated => worth == 0,
        Similarity::Words { .. } => 0 <= worth <= 550 * of,
        Similarity::Substring { .. } => 600 * of < worth < 900 * of,
        Similarity::Exact => worth == 1000 * of,
    }
}

/// How many words two lists share, and how many different ones they hold together.
fn count_words(q: &Vec<String>, t: &Vec<String>) -> (r: (u128, u128))
    ensures
        ({
            let qw = texts(q@).to_set();
            let tw = texts(t@).to_set();
            r.0 == qw.intersect(tw).len() && r.1 == (qw + tw).len()
        }),
{
    let a = distinct(q);
    let b = distinct(t);
    let ghost qs = texts(a@);
    let ghost ts = texts(b@);
    let mut common: Vec<String> = Vec::new();
    let mut i: usize = 0;
    while i < a.len()
        invariant
            i <= a.len(),
            qs == texts(a@),
            ts == texts(b@),
            qs.no_duplicates(),
            texts(common@).no_duplicates(),
            common.len() <= i,
            forall|x: Seq<char>| #[trigger]
                texts(common@).contains(x) <==> (qs.take(i as int).contains(x) && ts.contains(x)),
        decreases a.len() - i,
    {
        let ghost w = a@[i as int]@;
        let ghost before = texts(common@);
        let ghost seen = qs.take(i as int);
        let ghost next = qs.take(i + 1);
        proof {
            assert(next =~= seen.push(w));
            assert(!seen.contains(w)) by {
                if seen.contains(w) {
                    let k = choose|k: int| 0 <= k < seen.len() && seen[k] == w;
                    assert(qs[k] == qs[i as int]);
                }
            }
            assert(!before.contains(w));
            assert forall|x: Seq<char>| next.contains(x) <==> (seen.contains(x) || x == w) by {
                if seen.contains(x) {
                    let k = choose|k: int| 0 <= k < seen.len() && seen[k] == x;
                    assert(next[k] == x);
                }
                assert(next[i as int] == w);
            }
        }
        if has_text(&b, a[i].as_str()) {
            common.push(owned(a[i].as_str()));
            proof {
                assert(texts(common@) =~= before.push(w));
                assert forall|x: Seq<char>| #[trigger]
                    texts(common@).contains(x) <==> (before.contains(x) || x == w) by {
                    if before.contains(x) {
                        let k = choose|k: int| 0 <= k < before.len() && before[k] == x;
                        assert(texts(common@)[k] == x);
                    }
                    assert(texts(common@)[before.len() as int] == w);
                }
            }
        }
        i += 1;
    }
    proof {
        let qw = texts(q@).to_set();
        let tw = texts(t@).to_set();
        assert(qs.take(qs.len() as int) =~= qs);
        qs.unique_seq_to_set();
        ts.unique_seq_to_set();
        texts(common@).unique_seq_to_set();
        vstd::seq_lib::seq_to_set_is_finite(qs);
        vstd::seq_lib::seq_to_set_is_finite(ts);
        assert forall|x: Seq<char>| #[trigger]
            texts(common@).to_set().contains(x) <==> qw.intersect(tw).contains(x) by {
            assert(texts(common@).to_set().contains(x) <==> texts(common@).contains(x));
            assert(qs.to_set().contains(x) <==> qs.contains(x));
            assert(ts.to_set().contains(x) <==> ts.contains(x));
        }
        assert(texts(common@).to_set() =~= qw.intersect(tw));
        vstd::set_lib::lemma_set_intersect_union_lens(qw, tw);
    }
    let total: u128 = a.len() as u128 + b.len() as u128 - common.len() as u128;
    (common.len() as u128, total)
}

/// Compares two normalized titles as [`similarity_of`] says.
pub fn similarity(q: &str, t: &str) -> (r: Similarity)
    ensures
        r == similarity_of(q@, t@),
        keeps_its_band(r),
{
    let a: usize = q.as_bytes().len();
    let b: usize = t.as_bytes().len();
    proof {
        title_worth_keeps_its_band(q@, t@);
    }
    if q.is_empty() || t.is_empty() {
        return Similarity::Unrelated;
    }
    if same(q, t) {
        return Similarity::Exact;
    }
    if contains(t, q) || contains(q, t) {
        return if a <= b {
            Similarity::Substring { shorter: a, longer: b }
        } else {
            Similarity::Substring { shorter: b, longer: a }
        };
    }
    let qw = split_words(q);
    let tw = split_words(t);
    assert(texts(qw@).len() == qw@.len());
    assert(texts(tw@).len() == tw@.len());
    if qw.len() == 0 || tw.len() == 0 {
        return Similarity::Unrelated;
    }
    let (shared, together) = count_words(&qw, &tw);
    Similarity::Words { shared, together }
}

/// Compares a query with a title, whatever their letter case and the white space at their ends.
pub fn title_similarity(query: &str, title: &str) -> (r: Similarity)
    ensures
        r == similarity_of(lowercase(trimmed(query@)), lowercase(trimmed(title@))),
        keeps_its_band(r),
{
    let q = normalize(query);
    let t = normalize(title);
    similarity(q.as_str(), t.as_str())
}

/// Two titles are as alike in the one order as in the other.
pub proof fn similarity_is_symmetric(q: Seq<char>, t: Seq<char>)
    ensures
        similarity_of(q, t) == similarity_of(t, q),
{
    let qw = words_of(q).to_set();
    let tw = words_of(t).to_set();
    assert(qw.intersect(tw) =~= tw.intersect(qw));
    assert(qw + tw =~= tw + qw);
}

/// Two titles are the same exactly where they are equal and there is something to compare.
pub proof fn only_equal_titles_are_exact(q: Seq<char>, t: Seq<char>)
    ensures
        similarity_of(q, t) is Exact <==> q == t && q.len() > 0,
{
}

proof fn lemma_bytes_of_parts(a: Seq<char>, b: Seq<char>)
    ensures
        encode_utf8(a + b).len() == encode_utf8(a).len() + encode_utf8(b).len(),
        encode_utf8(a).len() >= a.len(),
    decreases a.len(),
{
    if a.len() == 0 {
        assert(a + b =~= b);
    } else {
        assert((a + b).drop_first() =~= a.drop_first() + b);
        lemma_bytes_of_parts(a.drop_first(), b);
    }
}

/// A text within another one is no longer, and shorter unless the two are equal.
proof fn lemma_part_is_shorter(hay: Seq<char>, needle: Seq<char>)
    requires
        has_substring(hay, needle),
        hay != needle,
    ensures
        needle.len() <= encode_utf8(needle).len() < encode_utf8(hay).len(),
{
    let i = choose|i: int| occurs_at(hay, needle, i);
    let head = hay.take(i);
    let tail = hay.skip(i + needle.len());
    assert(hay =~= head + (needle + tail));
    lemma_bytes_of_parts(head, needle + tail);
    lemma_bytes_of_parts(needle, tail);
    lemma_bytes_of_parts(tail, Seq::empty());
    if head.len() + tail.len() == 0 {
        assert(hay =~= needle);
    }
}

/// How many words two titles have is small enough to be counted.
pub proof fn lemma_word_counts(q: Seq<char>, t: Seq<char>)
    requires
        encode_utf8(q).len() <= usize::MAX,
        encode_utf8(t).len() <= usize::MAX,
    ensures
        words_of(q).to_set().intersect(words_of(t).to_set()).len() <= u128::MAX,
        (words_of(q).to_set() + words_of(t).to_set()).len() <= u128::MAX,
{
    let a = words_of(q);
    let b = words_of(t);
    lemma_words_from(q, 0);
    lemma_words_from(t, 0);
    lemma_bytes_of_parts(q, Seq::empty());
    lemma_bytes_of_parts(t, Seq::empty());
    a.lemma_cardinality_of_set();
    b.lemma_cardinality_of_set();
    vstd::seq_lib::seq_to_set_is_finite(a);
    vstd::seq_lib::seq_to_set_is_finite(b);
    vstd::set_lib::lemma_set_intersect_union_lens(a.to_set(), b.to_set());
    vstd::set_lib::lemma_len_subset(a.to_set().intersect(b.to_set()), a.to_set());
}

/// Where one title stands within another, neither length is zero and the two differ, so that such
/// titles are worth strictly more than nothing and strictly less than equal ones. Where titles are
/// compared by their words, those that they share are among those that they have together, of
/// which there is one at least.
pub proof fn partial_likeness_is_proper(q: Seq<char>, t: Seq<char>)
    requires
        encode_utf8(q).len() <= usize::MAX,
        encode_utf8(t).len() <= usize::MAX,
    ensures
        similarity_of(q, t) matches Similarity::Substring { shorter, longer } ==> 0 < shorter
            < longer,
        similarity_of(q, t) matches Similarity::Words { shared, together } ==> shared <= together
            && 0 < together,
{
    match similarity_of(q, t) {
        Similarity::Substring { .. } => {
            if has_substring(t, q) {
                lemma_part_is_shorter(t, q);
            } else {
                lemma_part_is_shorter(q, t);
            }
        },
        Similarity::Words { .. } => {
            let a = words_of(q);
            let b = words_of(t);
            let qw = a.to_set();
            let tw = b.to_set();
            lemma_words_from(q, 0);
            lemma_words_from(t, 0);
            lemma_bytes_of_parts(q, Seq::empty());
            lemma_bytes_of_parts(t, Seq::empty());
            a.lemma_cardinality_of_set();
            b.lemma_cardinality_of_set();
            vstd::seq_lib::seq_to_set_is_finite(a);
            vstd::seq_lib::seq_to_set_is_finite(b);
            vstd::set_lib::lemma_set_intersect_union_lens(qw, tw);
            vstd::set_lib::lemma_len_subset(qw.intersect(tw), qw);
            vstd::set_lib::lemma_len_subset(qw, qw + tw);
            assert(qw.contains(a[0]));
            assert(qw.len() > 0);
        },
        _ => {},
    }
}

/// What a comparison of two titles is worth: nothing where one is empty, 1000 thousandths where they
/// are equal and only then, more than 600 and less than 900 where one stands within the other, and
/// at most 550 otherwise. It is worth the same in the one order as in the other.
pub proof fn title_worth_keeps_its_band(q: Seq<char>, t: Seq<char>)
    requires
        encode_utf8(q).len() <= usize::MAX,
        encode_utf8(t).len() <= usize::MAX,
    ensures
        keeps_its_band(similarity_of(q, t)),
        worth_of(similarity_of(q, t)) == worth_of(similarity_of(t, q)),
        ({
            let (worth, of) = worth_of(similarity_of(q, t));
            &&& of > 0
            &&& q.len() == 0 || t.len() == 0 ==> worth == 0
            &&& worth == 1000 * of <==> q == t && q.len() > 0
            &&& q.len() > 0 && t.len() > 0 && q != t && (has_substring(t, q) || has_substring(q, t))
                ==> 600 * of < worth < 900 * of
            &&& q != t && !has_substring(t, q) && !has_substring(q, t) ==> 0 <= worth <= 550 * of
        }),
{
    similarity_is_symmetric(q, t);
    only_equal_titles_are_exact(q, t);
    partial_likeness_is_proper(q, t);
}

/// Equal titles are worth more than any others, a title within another one more than any overlap of
/// words, and an overlap of words never less than nothing: no comparison of one kind outranks one of
/// a better kind, whatever the titles.
pub proof fn overlaps_never_outrank_substrings(a: Similarity, b: Similarity)
    requires
        keeps_its_band(a),
        keeps_its_band(b),
    ensures
        a is Exact && !(b is Exact) ==> is_worth_more(a, b),
        a is Substring && (b is Words || b is Unrelated) ==> is_worth_more(a, b),
        b is Unrelated ==> !is_worth_more(b, a),
{
    let (x, p) = worth_of(a);
    let (y, q) = worth_of(b);
    if a is Exact && !(b is Exact) {
        assert(x * q > y * p) by (nonlinear_arith)
            requires
                x == 1000 * p,
                p > 0,
                q > 0,
                y < 1000 * q,
        ;
    }
    if a is Substring && (b is Words || b is Unrelated) {
        assert(x * q > y * p) by (nonlinear_arith)
            requires
                x > 600 * p,
                p > 0,
                q > 0,
                y <= 550 * q,
        ;
    }
    if b is Unrelated {
        assert(y * p <= x * q) by (nonlinear_arith)
            requires
                x >= 0,
                q > 0,
                y == 0,
        ;
    }
}

/// What a comparison is worth: a binary64 number from 0 to 1, by its bits.
#[derive(Debug, Clone, Copy, PartialEq, Eq, Structural)]
pub struct Score {
    bits: u64,
}

impl Score {
    #[verifier::type_invariant]
    spec fn in_range(&self) -> bool {
        self.bits <= 0x3ff0_0000_0000_0000
    }

    /// The bits.
    pub closed spec fn view_bits(self) -> u64 {
        self.bits
    }

    /// The score with these bits, where they stand for a number from 0 to 1.
    pub fn from_bits(bits: u64) -> (r: Option<Score>)
        ensures
            match r {
                Some(s) => bits <= 0x3ff0_0000_0000_0000 && s.view_bits() == bits,
                None => bits > 0x3ff0_0000_0000_0000,
            },
    {
        if bits <= 0x3ff0_0000_0000_0000 {
            Some(Score { bits })
        } else {
            None
        }
    }

    /// The bits, which stand for a number from 0 to 1.
    pub fn bits(&self) -> (r: u64)
        ensures
            r == self.view_bits(),
            r <= 0x3ff0_0000_0000_0000,
    {
        proof {
            use_type_invariant(self);
        }
        self.bits
    }
}

/// The bits of 0.2, below which a candidate is dropped.
pub const RELEVANCE_FLOOR: u64 = 0x3fc9_9999_9999_999a;

/// The bits of 0.75, from which a match is strong.
pub const STRONG_MATCH: u64 = 0x3fe8_0000_0000_0000;

/// The bits of 0.15, within which two strong matches are too close to call.
pub const CLOSE_DELTA: u64 = 0x3fc3_3333_3333_3333;

/// Whether a score is high enough to be shown at all.
pub open spec fn is_relevant(score: u64) -> bool {
    rank_of(score) >= rank_of(RELEVANCE_FLOOR)
}

/// Whether two scores are both strong and so close that picking one would be a guess.
pub open spec fn too_close(top: u64, second: u64) -> bool {
    &&& rank_of(top) >= rank_of(STRONG_MATCH)
    &&& rank_of(second) >= rank_of(STRONG_MATCH)
    &&& scaled(top) - scaled(second) <= scaled(CLOSE_DELTA)
}

/// A score of at least one half, as a multiple of 2^-53.
fn in_small_units(bits: u64) -> (r: u64)
    requires
        0x3fe0_0000_0000_0000 <= bits <= 0x3ff0_0000_0000_0000,
    ensures
        scaled(bits) == r * (vstd::arithmetic::power2::pow2(1021) as int),
        r <= 0x20_0000_0000_0000,
{
    proof {
        vstd::arithmetic::power2::lemma_pow2_unfold(1022);
        let unit = vstd::arithmetic::power2::pow2(1021) as int;
        if bits == 0x3ff0_0000_0000_0000 {
            assert(0x10_0000_0000_0000 * (2 * unit) == 0x20_0000_0000_0000 * unit)
                by (nonlinear_arith);
        }
    }
    if bits == 0x3ff0_0000_0000_0000 {
        0x20_0000_0000_0000
    } else {
        0x10_0000_0000_0000 + bits % 0x10_0000_0000_0000
    }
}

fn scores_too_close(top: &Score, second: &Score) -> (r: bool)
    ensures
        r == too_close(top.view_bits(), second.view_bits()),
{
    let a: u64 = top.bits();
    let b: u64 = second.bits();
    if a < STRONG_MATCH || b < STRONG_MATCH {
        return false;
    }
    let x: u64 = in_small_units(a);
    let y: u64 = in_small_units(b);
    let diff: i64 = x as i64 - y as i64;
    proof {
        vstd::arithmetic::power2::lemma_pow2_unfold(1021);
        vstd::arithmetic::power2::lemma_pow2_unfold(1020);
        vstd::arithmetic::power2::lemma_pow2_pos(1019);
        let u = vstd::arithmetic::power2::pow2(1019) as int;
        let big = vstd::arithmetic::power2::pow2(1021) as int;
        assert(big == 4 * u);
        assert(scaled(CLOSE_DELTA) == 0x13_3333_3333_3333 * u);
        assert(scaled(a) - scaled(b) == (4 * diff) * u) by (nonlinear_arith)
            requires
                scaled(a) == x * big,
                scaled(b) == y * big,
                big == 4 * u,
                diff == x - y,
        ;
        assert((4 * diff) * u <= 0x13_3333_3333_3333 * u <==> 4 * diff <= 0x13_3333_3333_3333)
            by (nonlinear_arith)
            requires
                u > 0,
        ;
    }
    4 * diff <= 0x13_3333_3333_3333
}

// ── candidates ──────────────────────────────────────────────────────────────

/// A film or a series that a search turned up, compared with the query.
#[derive(Debug, PartialEq, Eq)]
pub struct Found {
    pub title: String,
    pub tmdb_id: i64,
    pub media_type: String,
    pub year: Option<String>,
    /// The bits of its popularity.
    pub popularity: u64,
    pub similarity: Similarity,
}

/// The content of a [`Found`].
pub struct FoundView {
    pub title: Seq<char>,
    pub tmdb_id: int,
    pub media_type: Seq<char>,
    pub year: Option<Seq<char>>,
    pub popularity: u64,
    pub similarity: Similarity,
}

impl View for Found {
    type V = FoundView;

    open spec fn view(&self) -> FoundView {
        FoundView {
            title: self.title@,
            tmdb_id: self.tmdb_id as int,
            media_type: self.media_type@,
            year: opt_text(self.year),
            popularity: self.popularity,
            similarity: self.similarity,
        }
    }
}

/// The title of a search result, or its name.
pub open spec fn result_title(item: JsonView) -> Option<Seq<char>> {
    match item.text_at("title"@) {
        Some(t) => Some(t),
        None => item.text_at("name"@),
    }
}

fn title_at(item: &Json) -> (r: Option<&str>)
    ensures
        opt_str(r) == result_title(item@),
{
    match item.str_at("title") {
        Some(t) => Some(t),
        None => item.str_at("name"),
    }
}

/// Whether a search result is a film or a series with a title.
pub open spec fn is_candidate(item: JsonView) -> bool {
    &&& item.text_at("media_type"@) == Some("movie"@) || item.text_at("media_type"@) == Some("tv"@)
    &&& result_title(item) is Some
}

/// The date of a search result.
pub open spec fn result_date(item: JsonView) -> Option<Seq<char>> {
    match item.text_at("release_date"@) {
        Some(t) => Some(t),
        None => item.text_at("first_air_date"@),
    }
}

/// Whether a date's first four bytes are whole characters, where it has that many.
pub open spec fn year_is_whole(date: Option<Seq<char>>) -> bool {
    date matches Some(d) ==> byte_length(d) >= 4 ==> is_char_boundary(encode_utf8(d), 4)
}

/// The year of a search result: the first four bytes of its date.
pub open spec fn result_year(item: JsonView) -> Option<Seq<char>> {
    match result_date(item) {
        Some(d) => if byte_length(d) >= 4 {
            Some(decode_utf8(encode_utf8(d).subrange(0, 4)))
        } else {
            None
        },
        None => None,
    }
}

fn date_of(item: &Json) -> (r: Option<&str>)
    ensures
        opt_str(r) == result_date(item@),
{
    match item.str_at("release_date") {
        Some(t) => Some(t),
        None => item.str_at("first_air_date"),
    }
}

fn year_of(item: &Json) -> (r: Option<String>)
    requires
        year_is_whole(result_date(item@)),
    ensures
        opt_text(r) == result_year(item@),
{
    match date_of(item) {
        Some(d) => {
            if d.len() >= 4 {
                let (year, _) = d.split_at(4);
                proof {
                    encode_utf8_decode_utf8(year@);
                    assert(encode_utf8(year@) =~= encode_utf8(d@).subrange(0, 4));
                }
                Some(owned(year))
            } else {
                None
            }
        },
        None => None,
    }
}

/// The bits of a search result's popularity; those of zero where it has none.
pub open spec fn result_popularity(item: JsonView) -> u64 {
    match bits_of(
        number_text(item.at("popularity"@)),
    ) {
        Some(bits) => bits,
        None => 0,
    }
}

fn popularity_of(item: &Json) -> (r: u64)
    ensures
        r == result_popularity(item@),
{
    match item.get("popularity") {
        Some(v) => match number_bits(v) {
            Some(bits) => bits,
            None => 0,
        },
        None => 0,
    }
}

/// What a search result says, compared with the query.
pub open spec fn found_of(item: JsonView, query: Seq<char>) -> FoundView {
    let title = result_title(item).unwrap();
    FoundView {
        title,
        tmdb_id: match item.int_at("id"@) {
            Some(n) => n,
            None => 0,
        },
        media_type: item.text_at("media_type"@).unwrap(),
        year: result_year(item),
        popularity: result_popularity(item),
        similarity: similarity_of(lowercase(trimmed(query)), lowercase(trimmed(title))),
    }
}

/// The films and series among search results, in order.
pub open spec fn found_in(results: Seq<JsonView>, query: Seq<char>) -> Seq<FoundView>
    decreases results.len(),
{
    if results.len() == 0 {
        Seq::empty()
    } else {
        let front = found_in(results.drop_last(), query);
        if is_candidate(results.last()) {
            front.push(found_of(results.last(), query))
        } else {
            front
        }
    }
}

/// Whether the year of every candidate can be cut out of its date.
pub open spec fn years_are_whole(results: Seq<JsonView>) -> bool {
    forall|i: int|
        0 <= i < results.len() && is_candidate(#[trigger] results[i]) ==> year_is_whole(
            result_date(results[i]),
        )
}

/// The content of a list of finds.
pub open spec fn founds(v: Seq<Found>) -> Seq<FoundView> {
    v.map_values(|f: Found| f@)
}

fn check_candidate(item: &Json) -> (r: bool)
    ensures
        r == is_candidate(item@),
{
    let kind = match item.str_at("media_type") {
        Some(t) => same(t, "movie") || same(t, "tv"),
        None => false,
    };
    kind && title_at(item).is_some()
}

/// Reads the films and series among search results as [`found_in`] says.
pub fn extract_candidates(results: &Vec<Json>, query: &str) -> (r: Vec<Found>)
    requires
        years_are_whole(jsons(results@)),
    ensures
        founds(r@) == found_in(jsons(results@), query@),
{
    let ghost view = jsons(results@);
    let mut out: Vec<Found> = Vec::new();
    let mut i: usize = 0;
    assert(view.take(0) =~= Seq::<JsonView>::empty());
    assert(founds(out@) =~= Seq::<FoundView>::empty());
    while i < results.len()
        invariant
            i <= results.len(),
            view == jsons(results@),
            years_are_whole(view),
            founds(out@) == found_in(view.take(i as int), query@),
        decreases results.len() - i,
    {
        let item = &results[i];
        let ghost next = view.take(i + 1);
        let ghost before = founds(out@);
        assert(next.drop_last() =~= view.take(i as int));
        assert(next.last() == item@);
        assert(view[i as int] == item@);
        if check_candidate(item) {
            if let (Some(title), Some(kind)) = (title_at(item), item.str_at("media_type")) {
                let found = Found {
                    title: owned(title),
                    tmdb_id: match item.int_at("id") {
                        Some(n) => n,
                        None => 0,
                    },
                    media_type: owned(kind),
                    year: year_of(item),
                    popularity: popularity_of(item),
                    similarity: title_similarity(query, title),
                };
                assert(found@ == found_of(item@, query@));
                out.push(found);
                assert(founds(out@) =~= before.push(found_of(item@, query@)));
            }
        }
        i += 1;
    }
    assert(view.take(view.len() as int) =~= view);
    out
}

/// Reads the films and series among search results, where the year of each can be cut out of its
/// date.
pub fn try_extract_candidates(results: &Vec<Json>, query: &str) -> (r: Option<Vec<Found>>)
    ensures
        match r {
            Some(v) => years_are_whole(jsons(results@)) && founds(v@) == found_in(
                jsons(results@),
                query@,
            ),
            None => !years_are_whole(jsons(results@)),
        },
{
    let ghost view = jsons(results@);
    let mut i: usize = 0;
    while i < results.len()
        invariant
            i <= results.len(),
            view == jsons(results@),
            forall|k: int|
                0 <= k < i && is_candidate(#[trigger] view[k]) ==> year_is_whole(
                    result_date(view[k]),
                ),
        decreases results.len() - i,
    {
        let item = &results[i];
        assert(view[i as int] == item@);
        if check_candidate(item) {
            if let Some(d) = date_of(item) {
                if d.len() >= 4 && !d.is_char_boundary(4) {
                    assert(!year_is_whole(result_date(view[i as int])));
                    return None;
                }
            }
        }
        i += 1;
    }
    Some(extract_candidates(results, query))
}

/// A candidate with its score. `shown_score` is the score's decimal text, rounded to thousandths.
#[derive(Debug, PartialEq, Eq)]
pub struct Candidate {
    pub title: String,
    pub tmdb_id: i64,
    pub media_type: String,
    pub year: Option<String>,
    pub popularity: u64,
    pub score: Score,
    pub shown_score: String,
}

/// The content of a [`Candidate`].
pub struct CandidateView {
    pub title: Seq<char>,
    pub tmdb_id: int,
    pub media_type: Seq<char>,
    pub year: Option<Seq<char>>,
    pub popularity: u64,
    pub score: u64,
    pub shown_score: Seq<char>,
}

impl View for Candidate {
    type V = CandidateView;

    open spec fn view(&self) -> CandidateView {
        CandidateView {
            title: self.title@,
            tmdb_id: self.tmdb_id as int,
            media_type: self.media_type@,
            year: opt_text(self.year),
            popularity: self.popularity,
            score: self.score.view_bits(),
            shown_score: self.shown_score@,
        }
    }
}

impl FoundView {
    /// This find with the score that its comparison is worth.
    pub open spec fn scored(self, score: u64, shown_score: Seq<char>) -> CandidateView {
        CandidateView {
            title: self.title,
            tmdb_id: self.tmdb_id,
            media_type: self.media_type,
            year: self.year,
            popularity: self.popularity,
            score,
            shown_score,
        }
    }
}

impl Found {
    /// This find with the score that its comparison is worth.
    pub fn scored(self, score: Score, shown_score: String) -> (r: Candidate)
        ensures
            r@ == self@.scored(score.view_bits(), shown_score@),
    {
        Candidate {
            title: self.title,
            tmdb_id: self.tmdb_id,
            media_type: self.media_type,
            year: self.year,
            popularity: self.popularity,
            score,
            shown_score,
        }
    }
}

/// The content of a list of candidates.
pub open spec fn candidates_view(v: Seq<Candidate>) -> Seq<CandidateView> {
    v.map_values(|c: Candidate| c@)
}

/// What a candidate ranks by: its score, and its popularity where scores are equal.
pub open spec fn candidate_key(c: CandidateView) -> (int, int) {
    (rank_of(c.score), rank_of(c.popularity))
}

/// The relevant candidates, in order.
pub open spec fn relevant(candidates: Seq<CandidateView>) -> Seq<CandidateView>
    decreases candidates.len(),
{
    if candidates.len() == 0 {
        Seq::empty()
    } else {
        let front = relevant(candidates.drop_last());
        if is_relevant(candidates.last().score) {
            front.push(candidates.last())
        } else {
            front
        }
    }
}

/// The keys of a list of candidates.
pub open spec fn candidate_keys(candidates: Seq<CandidateView>) -> Seq<(int, int)> {
    candidates.map_values(|c: CandidateView| candidate_key(c))
}

/// The relevant candidates from the best to the worst: by score, then by popularity, then in the
/// order in which they were found.
pub open spec fn ranked(candidates: Seq<CandidateView>) -> Seq<CandidateView> {
    let kept = relevant(candidates);
    ranking(candidate_keys(kept), kept.len() as int).map_values(|i: int| kept[i])
}

fn copy_candidate(c: &Candidate) -> (r: Candidate)
    ensures
        r@ == c@,
{
    Candidate {
        title: owned(c.title.as_str()),
        tmdb_id: c.tmdb_id,
        media_type: owned(c.media_type.as_str()),
        year: match &c.year {
            Some(y) => Some(owned(y.as_str())),
            None => None,
        },
        popularity: c.popularity,
        score: c.score,
        shown_score: owned(c.shown_score.as_str()),
    }
}

/// Drops candidates that are not relevant and ranks the rest, as [`ranked`] says.
pub fn rank_candidates(candidates: &Vec<Candidate>) -> (r: Vec<Candidate>)
    ensures
        candidates_view(r@) == ranked(candidates_view(candidates@)),
{
    let ghost all = candidates_view(candidates@);
    let mut kept: Vec<usize> = Vec::new();
    let mut keys: Vec<(i128, i128)> = Vec::new();
    let ghost mut chosen: Seq<CandidateView> = Seq::empty();
    let mut i: usize = 0;
    assert(all.take(0) =~= Seq::<CandidateView>::empty());
    while i < candidates.len()
        invariant
            i <= candidates.len(),
            all == candidates_view(candidates@),
            chosen == relevant(all.take(i as int)),
            kept.len() == chosen.len(),
            keys.len() == chosen.len(),
            forall|k: int|
                0 <= k < chosen.len() ==> (#[trigger] kept@[k]) < candidates.len()
                    && candidates@[kept@[k] as int]@ == chosen[k],
            forall|k: int|
                0 <= k < chosen.len() ==> keys_view(keys@)[k] == candidate_key(
                    #[trigger] chosen[k],
                ),
        decreases candidates.len() - i,
    {
        let c = &candidates[i];
        let ghost next = all.take(i + 1);
        assert(next.drop_last() =~= all.take(i as int));
        assert(next.last() == c@);
        let bits: u64 = c.score.bits();
        if float_rank(bits) >= float_rank(RELEVANCE_FLOOR) {
            kept.push(i);
            keys.push((float_rank(bits), float_rank(c.popularity)));
            proof {
                chosen = chosen.push(c@);
            }
        }
        i += 1;
    }
    assert(all.take(all.len() as int) =~= all);
    assert(keys_view(keys@) =~= candidate_keys(chosen));
    let order = rank_indices(&keys);
    let ghost places = crate::order::indices_view(order@);
    let mut out: Vec<Candidate> = Vec::new();
    let mut k: usize = 0;
    while k < order.len()
        invariant
            k <= order.len(),
            out.len() == k,
            order.len() == kept.len(),
            kept.len() == chosen.len(),
            places == crate::order::indices_view(order@),
            forall|m: int| 0 <= m < order.len() ==> order@[m] < kept.len(),
            forall|m: int|
                0 <= m < chosen.len() ==> (#[trigger] kept@[m]) < candidates.len()
                    && candidates@[kept@[m] as int]@ == chosen[m],
            forall|m: int| 0 <= m < k ==> (#[trigger] out@[m])@ == chosen[places[m]],
        decreases order.len() - k,
    {
        let index = kept[order[k]];
        assert(candidates@[kept@[order@[k as int] as int] as int]@ == chosen[order@[k as int] as int]);
        out.push(copy_candidate(&candidates[index]));
        k += 1;
    }
    assert(candidates_view(out@) =~= ranked(all));
    out
}

proof fn lemma_relevant(candidates: Seq<CandidateView>)
    ensures
        forall|k: int|
            0 <= k < relevant(candidates).len() ==> is_relevant(
                (#[trigger] relevant(candidates)[k]).score,
            ) && candidates.contains(relevant(candidates)[k]),
        forall|i: int|
            0 <= i < candidates.len() && is_relevant((#[trigger] candidates[i]).score) ==> relevant(
                candidates,
            ).contains(candidates[i]),
    decreases candidates.len(),
{
    if candidates.len() > 0 {
        let front = candidates.drop_last();
        let kept = relevant(front);
        lemma_relevant(front);
        assert forall|k: int| 0 <= k < relevant(candidates).len() implies is_relevant(
            (#[trigger] relevant(candidates)[k]).score,
        ) && candidates.contains(relevant(candidates)[k]) by {
            if k < kept.len() {
                assert(relevant(candidates)[k] == kept[k]);
                let i = choose|i: int| 0 <= i < front.len() && front[i] == kept[k];
                assert(candidates[i] == kept[k]);
            } else {
                assert(relevant(candidates)[k] == candidates.last());
            }
        }
        assert forall|i: int|
            0 <= i < candidates.len() && is_relevant((#[trigger] candidates[i]).score) implies relevant(
            candidates,
        ).contains(candidates[i]) by {
            if i < front.len() {
                assert(front[i] == candidates[i]);
                let k = choose|k: int| 0 <= k < kept.len() && kept[k] == front[i];
                assert(relevant(candidates)[k] == candidates[i]);
            } else {
                assert(relevant(candidates)[kept.len() as int] == candidates[i]);
            }
        }
    }
}

/// A ranking shows exactly the relevant candidates, no worse score ever before a better one, and
/// popularity only decides between equal scores.
pub proof fn better_titles_come_first(candidates: Seq<CandidateView>)
    ensures
        forall|k: int|
            0 <= k < ranked(candidates).len() ==> is_relevant(
                (#[trigger] ranked(candidates)[k]).score,
            ) && candidates.contains(ranked(candidates)[k]),
        forall|i: int|
            0 <= i < candidates.len() && is_relevant((#[trigger] candidates[i]).score) ==> ranked(
                candidates,
            ).contains(candidates[i]),
        forall|k: int, l: int|
            0 <= k < l < ranked(candidates).len() ==> {
                let a = #[trigger] ranked(candidates)[k];
                let b = #[trigger] ranked(candidates)[l];
                &&& rank_of(a.score) >= rank_of(b.score)
                &&& rank_of(a.score) == rank_of(b.score) ==> rank_of(a.popularity) >= rank_of(
                    b.popularity,
                )
            },
{
    let kept = relevant(candidates);
    let keys = candidate_keys(kept);
    let order = ranking(keys, kept.len() as int);
    let all = ranked(candidates);
    lemma_relevant(candidates);
    crate::order::ranking_is_ordered(keys, kept.len() as int);
    assert forall|k: int| 0 <= k < all.len() implies is_relevant((#[trigger] all[k]).score)
        && candidates.contains(all[k]) by {
        assert(all[k] == kept[order[k]]);
    }
    assert forall|i: int|
        0 <= i < candidates.len() && is_relevant((#[trigger] candidates[i]).score) implies all.contains(
        candidates[i],
    ) by {
        assert(kept.contains(candidates[i]));
        let m = choose|m: int| 0 <= m < kept.len() && kept[m] == candidates[i];
        assert(order.contains(m));
        let k = choose|k: int| 0 <= k < order.len() && order[k] == m;
        assert(all[k] == candidates[i]);
    }
    assert forall|k: int, l: int| 0 <= k < l < all.len() implies {
        let a = #[trigger] all[k];
        let b = #[trigger] all[l];
        &&& rank_of(a.score) >= rank_of(b.score)
        &&& rank_of(a.score) == rank_of(b.score) ==> rank_of(a.popularity) >= rank_of(b.popularity)
    } by {
        assert(crate::order::ranks_before(keys, order[k], order[l]));
        assert(keys[order[k]] == candidate_key(all[k]));
        assert(keys[order[l]] == candidate_key(all[l]));
    }
}

/// Whether the two best candidates are too close to call.
pub open spec fn ambiguous(candidates: Seq<CandidateView>) -> bool {
    candidates.len() >= 2 && too_close(candidates[0].score, candidates[1].score)
}

/// Checks whether the two best candidates are too close to call.
pub fn is_ambiguous(candidates: &[Candidate]) -> (r: bool)
    ensures
        r == ambiguous(candidates_view(candidates@)),
{
    if candidates.len() < 2 {
        return false;
    }
    assert(candidates_view(candidates@)[0] == candidates@[0]@);
    assert(candidates_view(candidates@)[1] == candidates@[1]@);
    scores_too_close(&candidates[0].score, &candidates[1].score)
}

/// A candidate's year, in words.
pub open spec fn year_text(c: CandidateView) -> Seq<char> {
    match c.year {
        Some(y) => y,
        None => "year unknown"@,
    }
}

fn shown_year(c: &Candidate) -> (r: &str)
    ensures
        r@ == year_text(c@),
{
    match &c.year {
        Some(y) => y.as_str(),
        None => "year unknown",
    }
}

/// At most the first `n` of a list.
pub open spec fn first_of<T>(s: Seq<T>, n: int) -> Seq<T> {
    if s.len() <= n {
        s
    } else {
        s.take(n)
    }
}

/// What is said about the outcome of a search.
pub open spec fn search_summary(query: Seq<char>, candidates: Seq<CandidateView>) -> Seq<char> {
    if candidates.len() == 0 {
        "I couldn't find anything matching \""@ + query
            + "\". Try a more specific title, or add the year if you know it."@
    } else if ambiguous(candidates) {
        "I found a few close matches for \""@ + query + "\": "@ + joined(
            first_of(candidates, 3).map_values(
                |c: CandidateView|
                    c.title + " ("@ + year_text(c) + ", "@ + c.media_type + ")"@,
            ),
            "; "@,
        ) + ". Which one did you mean?"@
    } else {
        "Found \""@ + candidates[0].title + "\" ("@ + year_text(candidates[0]) + ") — "@
            + candidates[0].media_type + "."@
    }
}

/// A candidate as it is shown.
pub open spec fn candidate_json(c: CandidateView) -> JsonView {
    JsonView::Object(
        no_fields().push(("title"@, JsonView::Str(c.title))).push(("year"@, text_or_null(c.year))).push(
            ("tmdb_id"@, JsonView::Int(c.tmdb_id)),
        ).push(("media_type"@, JsonView::Str(c.media_type))).push(
            ("score"@, JsonView::Float(c.shown_score)),
        ),
    )
}

/// The answer to a search: at most five candidates, and a question where the best two are too close
/// to call.
pub open spec fn search_answer(query: Seq<char>, candidates: Seq<CandidateView>) -> JsonView {
    spoken(
        search_summary(query, candidates),
        JsonView::Object(
            no_fields().push(("query"@, JsonView::Str(query))).push(
                ("ambiguous"@, JsonView::Bool(ambiguous(candidates))),
            ).push(
                (
                    "candidates"@,
                    JsonView::Array(
                        first_of(candidates, 5).map_values(|c: CandidateView| candidate_json(c)),
                    ),
                ),
            ),
        ),
    )
}

fn close_matches(candidates: &[Candidate]) -> (r: Vec<String>)
    ensures
        texts(r@) == first_of(candidates_view(candidates@), 3).map_values(
            |c: CandidateView| c.title + " ("@ + year_text(c) + ", "@ + c.media_type + ")"@,
        ),
{
    let ghost view = candidates_view(candidates@);
    let mut out: Vec<String> = Vec::new();
    let mut i: usize = 0;
    while i < candidates.len() && i < 3
        invariant
            i <= candidates.len(),
            i <= 3,
            view == candidates_view(candidates@),
            out.len() == i,
            forall|k: int|
                0 <= k < i ==> (#[trigger] out@[k])@ == view[k].title + " ("@ + year_text(view[k])
                    + ", "@ + view[k].media_type + ")"@,
        decreases candidates.len() - i,
    {
        let c = &candidates[i];
        assert(view[i as int] == c@);
        let head = cat4(c.title.as_str(), " (", shown_year(c), ", ");
        out.push(cat3(head.as_str(), c.media_type.as_str(), ")"));
        i += 1;
    }
    assert(texts(out@) =~= first_of(view, 3).map_values(
        |c: CandidateView| c.title + " ("@ + year_text(c) + ", "@ + c.media_type + ")"@,
    ));
    out
}

fn shown_candidates(candidates: &[Candidate]) -> (r: Vec<Json>)
    ensures
        jsons(r@) == first_of(candidates_view(candidates@), 5).map_values(
            |c: CandidateView| candidate_json(c),
        ),
{
    let ghost view = candidates_view(candidates@);
    let mut out: Vec<Json> = Vec::new();
    let mut i: usize = 0;
    while i < candidates.len() && i < 5
        invariant
            i <= candidates.len(),
            i <= 5,
            view == candidates_view(candidates@),
            out.len() == i,
            forall|k: int| 0 <= k < i ==> (#[trigger] out@[k])@ == candidate_json(view[k]),
        decreases candidates.len() - i,
    {
        let c = &candidates[i];
        assert(view[i as int] == c@);
        let mut f = Fields::new();
        f.put("title", Json::text(c.title.as_str()));
        f.put(
            "year",
            match &c.year {
                Some(y) => Json::text(y.as_str()),
                None => Json::Null,
            },
        );
        f.put("tmdb_id", Json::integer(c.tmdb_id));
        f.put("media_type", Json::text(c.media_type.as_str()));
        f.put("score", Json::Float(owned(c.shown_score.as_str())));
        out.push(f.object());
        i += 1;
    }
    assert(jsons(out@) =~= first_of(view, 5).map_values(|c: CandidateView| candidate_json(c)));
    out
}

/// Builds the answer to a search as [`search_answer`] says.
pub fn build_search_response(query: &str, candidates: &[Candidate]) -> (r: Json)
    ensures
        r@ == search_answer(query@, candidates_view(candidates@)),
{
    let ambiguous = is_ambiguous(candidates);
    let summary = if candidates.len() == 0 {
        cat3(
            "I couldn't find anything matching \"",
            query,
            "\". Try a more specific title, or add the year if you know it.",
        )
    } else if ambiguous {
        let options = close_matches(candidates);
        let list = join(&options, "; ");
        cat5(
            "I found a few close matches for \"",
            query,
            "\": ",
            list.as_str(),
            ". Which one did you mean?",
        )
    } else {
        let top = &candidates[0];
        assert(candidates_view(candidates@)[0] == top@);
        let head = cat5("Found \"", top.title.as_str(), "\" (", shown_year(top), ") — ");
        cat3(head.as_str(), top.media_type.as_str(), ".")
    };
    let mut f = Fields::new();
    f.put("query", Json::text(query));
    f.put("ambiguous", Json::Bool(ambiguous));
    f.put("candidates", Json::array(shown_candidates(candidates)));
    speak(summary.as_str(), f.object())
}

/// The search tool and the service it asks.
#[derive(Debug)]
pub struct MediaSearch {
    pub client: Option<TmdbClient>,
}

/// The trimmed text under `key`, or nothing.
pub open spec fn query_view(args: JsonView, key: Seq<char>) -> Seq<char> {
    match args.text_at(key) {
        Some(t) => trimmed(t),
        None => ""@,
    }
}

fn query_at<'a>(args: &'a Json, key: &str) -> (r: &'a str)
    ensures
        r@ == query_view(args@, key@),
{
    match args.str_at(key) {
        Some(t) => trim(t),
        None => "",
    }
}

impl MediaSearch {
    /// The service to ask, or the error that it is not configured.
    pub fn require_client(&self) -> (r: Result<&TmdbClient, ToolError>)
        ensures
            match self.client {
                Some(c) => r matches Ok(x) && *x == c,
                None => r matches Err(e) && e@ == ErrorView::NotConfigured("TMDB_API_KEY not set"@),
            },
    {
        match &self.client {
            Some(c) => Ok(c),
            None => Err(ToolError::not_configured("TMDB_API_KEY not set")),
        }
    }

    /// The first step: the query is sent, where there is one and someone to ask.
    pub open spec fn start_view(&self, args: JsonView) -> StepView {
        let query = query_view(args, "query"@);
        if query.len() == 0 {
            StepView::Failed(ErrorView::InvalidArgument("query must not be empty"@), None)
        } else {
            match self.client {
                None => StepView::Failed(ErrorView::NotConfigured("TMDB_API_KEY not set"@), None),
                Some(c) => StepView::Send(c.search_view(query)),
            }
        }
    }

    /// Takes the first step as [`Self::start_view`] says.
    pub fn start(&self, args: &Json) -> (r: Step)
        ensures
            r@ == self.start_view(args@),
    {
        let query = query_at(args, "query");
        if query.is_empty() {
            return Step::Failed(ToolError::invalid("query must not be empty"), None);
        }
        match self.require_client() {
            Ok(c) => Step::Send(c.search_multi(query)),
            Err(e) => Step::Failed(e, None),
        }
    }

    /// The results that a reply carries; none where it carries no list.
    pub open spec fn results_view(reply: ReplyView) -> Result<Seq<JsonView>, ErrorView> {
        match reply_content(Service::Tmdb, reply) {
            Ok(raw) => Ok(
                match raw.items_at("results"@) {
                    Some(items) => items,
                    None => Seq::empty(),
                },
            ),
            Err(e) => Err(e),
        }
    }

    /// Reads the results that a reply carries as [`Self::results_view`] says.
    pub fn results(reply: &HttpReply) -> (r: Result<Vec<Json>, ToolError>)
        ensures
            match r {
                Ok(v) => MediaSearch::results_view(reply@) == Ok::<Seq<JsonView>, ErrorView>(
                    jsons(v@),
                ),
                Err(e) => MediaSearch::results_view(reply@) == Err::<Seq<JsonView>, ErrorView>(e@),
            },
    {
        match map_reply(Service::Tmdb, reply) {
            Ok(raw) => Ok(copy_items(raw.array_at("results"))),
            Err(e) => Err(e),
        }
    }

    /// The last step: the answer, from the scored candidates.
    pub fn finish(args: &Json, candidates: &Vec<Candidate>) -> (r: Json)
        ensures
            r@ == search_answer(
                query_view(args@, "query"@),
                ranked(candidates_view(candidates@)),
            ),
    {
        let best = rank_candidates(candidates);
        build_search_response(query_at(args, "query"), best.as_slice())
    }
}

/// What a comparison is worth: its score, and the score's decimal text rounded to thousandths.
#[derive(Debug)]
pub struct Rating {
    pub score: Score,
    pub shown: String,
}

/// The finds with what their comparisons are worth.
pub open spec fn rated(found: Seq<FoundView>, ratings: Seq<Rating>) -> Seq<CandidateView> {
    Seq::new(
        found.len(),
        |i: int| found[i].scored(ratings[i].score.view_bits(), ratings[i].shown@),
    )
}

impl Ratable for Found {
    type Rating = Rating;

    type Rated = Candidate;

    open spec fn becomes(&self, rating: &Rating, rated: &Candidate) -> bool {
        rated@ == self@.scored(rating.score.view_bits(), rating.shown@)
    }

    fn with_rating(self, rating: &Rating) -> Candidate {
        self.scored(rating.score, owned(rating.shown.as_str()))
    }
}

fn rate(found: Vec<Found>, ratings: &Vec<Rating>) -> (r: Vec<Candidate>)
    requires
        found.len() == ratings.len(),
    ensures
        candidates_view(r@) == rated(founds(found@), ratings@),
{
    let ghost expected = rated(founds(found@), ratings@);
    let out = rate_all(found, ratings);
    assert(candidates_view(out@) =~= expected);
    out
}

/// Where a search stands.
#[derive(Debug)]
pub enum SearchStep {
    /// The answer is ready.
    Done(Json),
    /// Send this request and come back with the reply.
    Send(HttpRequest),
    /// Say what these comparisons are worth and come back with the ratings.
    Rate(Vec<Similarity>),
    /// The call failed.
    Failed(ToolError),
    /// A date in the reply has no year of four bytes to cut out; there is no answer.
    CutDate,
}

/// The content of a [`SearchStep`].
pub enum SearchView {
    Done(JsonView),
    Send(RequestView),
    Rate(Seq<Similarity>),
    Failed(ErrorView),
    CutDate,
}

impl View for SearchStep {
    type V = SearchView;

    open spec fn view(&self) -> SearchView {
        match *self {
            SearchStep::Done(answer) => SearchView::Done(answer@),
            SearchStep::Send(request) => SearchView::Send(request@),
            SearchStep::Rate(comparisons) => SearchView::Rate(comparisons@),
            SearchStep::Failed(e) => SearchView::Failed(e@),
            SearchStep::CutDate => SearchView::CutDate,
        }
    }
}

/// The comparisons of some finds with what was searched for.
pub open spec fn comparisons(found: Seq<FoundView>) -> Seq<Similarity> {
    found.map_values(|f: FoundView| f.similarity)
}

impl MediaSearch {
    /// Where a call stands once the service has replied, and once as many comparisons were rated as
    /// there are finds.
    pub open spec fn execute_view(
        &self,
        args: JsonView,
        reply: Option<ReplyView>,
        ratings: Seq<Rating>,
    ) -> SearchView {
        let query = query_view(args, "query"@);
        match self.start_view(args) {
            StepView::Done(answer, _) => SearchView::Done(answer),
            StepView::Failed(e, _) => SearchView::Failed(e),
            StepView::Send(request) => match reply {
                None => SearchView::Send(request),
                Some(r) => match MediaSearch::results_view(r) {
                    Err(e) => SearchView::Failed(e),
                    Ok(results) => {
                        let found = found_in(results, query);
                        if !years_are_whole(results) {
                            SearchView::CutDate
                        } else if ratings.len() != found.len() {
                            SearchView::Rate(comparisons(found))
                        } else {
                            SearchView::Done(search_answer(query, ranked(rated(found, ratings))))
                        }
                    },
                },
            },
        }
    }

    /// Carries a call on to its next step as [`Self::execute_view`] says.
    pub fn execute(&self, args: &Json, reply: &Option<HttpReply>, ratings: &Vec<Rating>) -> (r:
        SearchStep)
        ensures
            r@ == self.execute_view(args@, opt_reply(*reply), ratings@),
    {
        let request = match self.start(args) {
            Step::Done(answer, _) => {
                return SearchStep::Done(answer);
            },
            Step::Failed(e, _) => {
                return SearchStep::Failed(e);
            },
            Step::Send(request) => request,
        };
        let results = match reply {
            None => {
                return SearchStep::Send(request);
            },
            Some(r) => match MediaSearch::results(r) {
                Ok(v) => v,
                Err(e) => {
                    return SearchStep::Failed(e);
                },
            },
        };
        let found = match try_extract_candidates(&results, query_at(args, "query")) {
            Some(v) => v,
            None => {
                return SearchStep::CutDate;
            },
        };
        assert(founds(found@).len() == found@.len());
        if ratings.len() != found.len() {
            let mut all: Vec<Similarity> = Vec::new();
            let mut i: usize = 0;
            while i < found.len()
                invariant
                    i <= found.len(),
                    all.len() == i,
                    forall|k: int| 0 <= k < i ==> all@[k] == (#[trigger] found@[k]).similarity,
                decreases found.len() - i,
            {
                all.push(found[i].similarity);
                i += 1;
            }
            assert(all@ =~= comparisons(founds(found@)));
            return SearchStep::Rate(all);
        }
        SearchStep::Done(MediaSearch::finish(args, &rate(found, ratings)))
    }
}

/// A search that the service answers with no results is answered, and no failure.
pub proof fn empty_results_are_answered(
    tool: MediaSearch,
    args: JsonView,
    reply: ReplyView,
)
    requires
        tool.start_view(args) is Send,
        MediaSearch::results_view(reply) == Ok::<Seq<JsonView>, ErrorView>(Seq::empty()),
    ensures
        tool.execute_view(args, Some(reply), Seq::empty()) == SearchView::Done(
            search_answer(query_view(args, "query"@), Seq::empty()),
        ),
{
    let none = Seq::<CandidateView>::empty();
    assert(rated(Seq::empty(), Seq::empty()) =~= none);
    assert(relevant(none) =~= none);
    assert(ranked(none) =~= none);
}

// ── status ──────────────────────────────────────────────────────────────────

/// What one service says about a title.
#[derive(Debug, PartialEq, Eq)]
pub enum ServiceCheck {
    NotConfigured,
    Error(String),
    NotFoundInLibrary,
    Found(Json),
}

/// The content of a [`ServiceCheck`].
pub enum CheckView {
    NotConfigured,
    Error(Seq<char>),
    NotFoundInLibrary,
    Found(JsonView),
}

impl View for ServiceCheck {
    type V = CheckView;

    open spec fn view(&self) -> CheckView {
        match *self {
            ServiceCheck::NotConfigured => CheckView::NotConfigured,
            ServiceCheck::Error(m) => CheckView::Error(m@),
            ServiceCheck::NotFoundInLibrary => CheckView::NotFoundInLibrary,
            ServiceCheck::Found(v) => CheckView::Found(v@),
        }
    }
}

/// A check as structured content.
pub open spec fn check_json(check: CheckView) -> JsonView {
    match check {
        CheckView::NotConfigured => JsonView::Object(
            no_fields().push(("configured"@, JsonView::Bool(false))),
        ),
        CheckView::Error(m) => JsonView::Object(
            no_fields().push(("configured"@, JsonView::Bool(true))).push(
                ("reachable"@, JsonView::Bool(false)),
            ).push(("error"@, JsonView::Str(m))),
        ),
        CheckView::NotFoundInLibrary => JsonView::Object(
            no_fields().push(("configured"@, JsonView::Bool(true))).push(
                ("reachable"@, JsonView::Bool(true)),
            ).push(("present"@, JsonView::Bool(false))),
        ),
        CheckView::Found(v) => JsonView::Object(
            no_fields().push(("configured"@, JsonView::Bool(true))).push(
                ("reachable"@, JsonView::Bool(true)),
            ).push(("present"@, JsonView::Bool(true))).push(("detail"@, v)),
        ),
    }
}

/// Turns a check into structured content as [`check_json`] says.
pub fn service_to_json(check: &ServiceCheck) -> (r: Json)
    ensures
        r@ == check_json(check@),
{
    let mut f = Fields::new();
    match check {
        ServiceCheck::NotConfigured => {
            f.put("configured", Json::Bool(false));
        },
        ServiceCheck::Error(m) => {
            f.put("configured", Json::Bool(true));
            f.put("reachable", Json::Bool(false));
            f.put("error", Json::text(m.as_str()));
        },
        ServiceCheck::NotFoundInLibrary => {
            f.put("configured", Json::Bool(true));
            f.put("reachable", Json::Bool(true));
            f.put("present", Json::Bool(false));
        },
        ServiceCheck::Found(v) => {
            f.put("configured", Json::Bool(true));
            f.put("reachable", Json::Bool(true));
            f.put("present", Json::Bool(true));
            f.put("detail", v.copy());
        },
    }
    f.object()
}

/// How a library item compares with a query, where the item has a title.
pub open spec fn item_similarity(item: JsonView, query: Seq<char>) -> Option<Similarity> {
    match result_title(item) {
        Some(t) => Some(similarity_of(lowercase(trimmed(query)), lowercase(trimmed(t)))),
        None => None,
    }
}

/// Compares a library item with a query as [`item_similarity`] says.
pub fn compare_item(item: &Json, query: &str) -> (r: Option<Similarity>)
    ensures
        r == item_similarity(item@, query@),
{
    match title_at(item) {
        Some(t) => Some(title_similarity(query, t)),
        None => None,
    }
}

/// The best of the first `n` items: the relevant one with the highest score, and the last of those
/// where several share it. `scores` holds the bits of the items' scores; an item without a title
/// has none.
pub open spec fn best_item(scores: Seq<Option<u64>>, n: int) -> Option<int>
    decreases n,
{
    if n <= 0 {
        None
    } else {
        let best = best_item(scores, n - 1);
        match scores[n - 1] {
            Some(score) => if is_relevant(score) && (best matches Some(b) ==> rank_of(score)
                >= rank_of(scores[b].unwrap())) {
                Some(n - 1)
            } else {
                best
            },
            None => best,
        }
    }
}

/// The item that is found is relevant, and no relevant item has a higher score.
pub proof fn found_item_is_best(scores: Seq<Option<u64>>, n: int)
    requires
        0 <= n <= scores.len(),
    ensures
        match best_item(scores, n) {
            Some(b) => {
                &&& 0 <= b < n
                &&& scores[b] matches Some(top)
                &&& is_relevant(top)
                &&& forall|i: int|
                    0 <= i < n ==> ((#[trigger] scores[i]) matches Some(score) ==> is_relevant(
                        score,
                    ) ==> rank_of(score) <= rank_of(top))
            },
            None => forall|i: int|
                0 <= i < n ==> ((#[trigger] scores[i]) matches Some(score) ==> !is_relevant(score)),
        },
    decreases n,
{
    if n > 0 {
        found_item_is_best(scores, n - 1);
    }
}

/// Finds the best item as [`best_item`] says.
pub fn find_by_title(scores: &Vec<Option<u64>>) -> (r: Option<usize>)
    ensures
        match r {
            Some(i) => i < scores.len() && best_item(scores@, scores@.len() as int) == Some(
                i as int,
            ),
            None => best_item(scores@, scores@.len() as int) is None,
        },
{
    let mut best: Option<(usize, u64)> = None;
    let mut i: usize = 0;
    while i < scores.len()
        invariant
            i <= scores.len(),
            match best {
                Some((b, score)) => b < i && scores@[b as int] == Some(score) && best_item(
                    scores@,
                    i as int,
                ) == Some(b as int),
                None => best_item(scores@, i as int) is None,
            },
        decreases scores.len() - i,
    {
        if let Some(score) = scores[i] {
            let relevant = float_rank(score) >= float_rank(RELEVANCE_FLOOR);
            let better = match best {
                Some((_, top)) => float_rank(score) >= float_rank(top),
                None => true,
            };
            if relevant && better {
                best = Some((i, score));
            }
        }
        i += 1;
    }
    match best {
        Some((b, _)) => Some(b),
        None => None,
    }
}

/// What a library that was listed says about a title.
pub open spec fn library_check(items: Seq<JsonView>, scores: Seq<Option<u64>>) -> CheckView {
    match best_item(scores, scores.len() as int) {
        Some(i) => CheckView::Found(items[i]),
        None => CheckView::NotFoundInLibrary,
    }
}

/// Concludes what a library that was listed says as [`library_check`] says.
pub fn conclude(items: &Vec<Json>, scores: &Vec<Option<u64>>) -> (r: ServiceCheck)
    requires
        items.len() == scores.len(),
    ensures
        r@ == library_check(jsons(items@), scores@),
{
    match find_by_title(scores) {
        Some(i) => ServiceCheck::Found(items[i].copy()),
        None => ServiceCheck::NotFoundInLibrary,
    }
}

/// A service that a title is looked for in.
#[derive(Debug, Clone, Copy, PartialEq, Eq, Structural)]
pub enum StatusSource {
    Radarr,
    Sonarr,
    Plex,
}

impl StatusSource {
    /// The service.
    pub open spec fn service_view(self) -> Service {
        match self {
            StatusSource::Radarr => Service::Radarr,
            StatusSource::Sonarr => Service::Sonarr,
            StatusSource::Plex => Service::Plex,
        }
    }
}

/// The items of a Plex answer: its container's list, else the answer itself where it is a list.
pub open spec fn plex_items(raw: JsonView) -> Seq<JsonView> {
    match raw.at("MediaContainer"@).items_at("Metadata"@) {
        Some(items) => items,
        None => match raw.items() {
            Some(items) => items,
            None => Seq::empty(),
        },
    }
}

/// The items that a service's reply lists, or the message of its error.
pub open spec fn listed_items(source: StatusSource, reply: ReplyView) -> Result<
    Seq<JsonView>,
    Seq<char>,
> {
    match reply_content(source.service_view(), reply) {
        Err(e) => Err(e.message()),
        Ok(raw) => Ok(
            match source {
                StatusSource::Plex => plex_items(raw),
                _ => match raw.items() {
                    Some(items) => items,
                    None => Seq::empty(),
                },
            },
        ),
    }
}

/// Reads the items of a Plex answer as [`plex_items`] says.
pub fn read_plex_items(raw: &Json) -> (r: Vec<Json>)
    ensures
        jsons(r@) == plex_items(raw@),
{
    let container = match raw.get("MediaContainer") {
        Some(mc) => mc.array_at("Metadata"),
        None => None,
    };
    match container {
        Some(items) => copy_items(Some(items)),
        None => copy_items(raw.as_array()),
    }
}

/// Reads the items that a service's reply lists as [`listed_items`] says; an error becomes the
/// check that reports it.
pub fn read_listing(source: StatusSource, reply: &HttpReply) -> (r: Result<Vec<Json>, ServiceCheck>)
    ensures
        match r {
            Ok(v) => listed_items(source, reply@) == Ok::<Seq<JsonView>, Seq<char>>(jsons(v@)),
            Err(check) => listed_items(source, reply@) matches Err(m) && check@ == CheckView::Error(
                m,
            ),
        },
{
    let service = match source {
        StatusSource::Radarr => Service::Radarr,
        StatusSource::Sonarr => Service::Sonarr,
        StatusSource::Plex => Service::Plex,
    };
    match map_reply(service, reply) {
        Err(e) => Err(ServiceCheck::Error(owned(e.message()))),
        Ok(raw) => match source {
            StatusSource::Plex => Ok(read_plex_items(&raw)),
            _ => Ok(copy_items(raw.as_array())),
        },
    }
}

/// How good an item is to have, in a word.
pub open spec fn quality_word(detail: JsonView) -> Seq<char> {
    match detail.bool_at("hasFile"@) {
        Some(true) => "downloaded"@,
        Some(false) => "monitored, not downloaded yet"@,
        None => match detail.bool_at("monitored"@) {
            Some(true) => "monitored"@,
            Some(false) => "known"@,
            None => "present"@,
        },
    }
}

/// What is said about one service.
pub open spec fn check_phrase(name: Seq<char>, check: CheckView) -> Seq<char> {
    match check {
        CheckView::NotConfigured => name + " isn't configured"@,
        CheckView::Error(_) => name + " is unreachable right now"@,
        CheckView::NotFoundInLibrary => "not in "@ + name,
        CheckView::Found(detail) => "in "@ + name + " ("@ + quality_word(detail) + ")"@,
    }
}

fn phrase(name: &str, check: &ServiceCheck) -> (r: String)
    ensures
        r@ == check_phrase(name@, check@),
{
    match check {
        ServiceCheck::NotConfigured => cat2(name, " isn't configured"),
        ServiceCheck::Error(_) => cat2(name, " is unreachable right now"),
        ServiceCheck::NotFoundInLibrary => cat2("not in ", name),
        ServiceCheck::Found(detail) => {
            let quality = match detail.bool_at("hasFile") {
                Some(true) => "downloaded",
                Some(false) => "monitored, not downloaded yet",
                None => match detail.bool_at("monitored") {
                    Some(true) => "monitored",
                    Some(false) => "known",
                    None => "present",
                },
            };
            cat5("in ", name, " (", quality, ")")
        },
    }
}

/// The answer to a status call: each service speaks for itself.
pub open spec fn status_answer(
    query: Seq<char>,
    radarr: CheckView,
    sonarr: CheckView,
    plex: CheckView,
) -> JsonView {
    spoken(
        "\""@ + query + "\": "@ + (check_phrase("Radarr"@, radarr) + "; "@ + check_phrase(
            "Sonarr"@,
            sonarr,
        ) + "; "@ + check_phrase("Plex"@, plex)) + "."@,
        JsonView::Object(
            no_fields().push(("query"@, JsonView::Str(query))).push(
                ("radarr"@, check_json(radarr)),
            ).push(("sonarr"@, check_json(sonarr))).push(("plex"@, check_json(plex))),
        ),
    )
}

/// Builds the answer to a status call as [`status_answer`] says.
pub fn build_status_response(
    query: &str,
    radarr: ServiceCheck,
    sonarr: ServiceCheck,
    plex: ServiceCheck,
) -> (r: Json)
    ensures
        r@ == status_answer(query@, radarr@, sonarr@, plex@),
{
    let a = phrase("Radarr", &radarr);
    let b = phrase("Sonarr", &sonarr);
    let c = phrase("Plex", &plex);
    let parts = cat5(a.as_str(), "; ", b.as_str(), "; ", c.as_str());
    let summary = cat5("\"", query, "\": ", parts.as_str(), ".");
    let mut f = Fields::new();
    f.put("query", Json::text(query));
    f.put("radarr", service_to_json(&radarr));
    f.put("sonarr", service_to_json(&sonarr));
    f.put("plex", service_to_json(&plex));
    speak(summary.as_str(), f.object())
}

/// The status tool and the services it asks.
#[derive(Debug)]
pub struct MediaStatus {
    pub radarr: Option<RadarrClient>,
    pub sonarr: Option<SonarrClient>,
    pub plex: Option<PlexClient>,
}

impl MediaStatus {
    /// The title that the arguments ask about.
    pub fn query(args: &Json) -> (r: Result<&str, ToolError>)
        ensures
            ({
                let query = query_view(args@, "id_or_title"@);
                if query.len() == 0 {
                    r matches Err(e) && e@ == ErrorView::InvalidArgument(
                        "id_or_title must not be empty"@,
                    )
                } else {
                    r matches Ok(q) && q@ == query
                }
            }),
    {
        let query = query_at(args, "id_or_title");
        if query.is_empty() {
            Err(ToolError::invalid("id_or_title must not be empty"))
        } else {
            Ok(query)
        }
    }

    /// The request that lists what a service has, where it is configured.
    pub open spec fn listing_request(&self, source: StatusSource) -> Option<RequestView> {
        match source {
            StatusSource::Radarr => match self.radarr {
                Some(c) => Some(c.call_view(crate::http::Method::Get, "/api/v3/movie"@)),
                None => None,
            },
            StatusSource::Sonarr => match self.sonarr {
                Some(c) => Some(c.call_view(crate::http::Method::Get, "/api/v3/series"@)),
                None => None,
            },
            StatusSource::Plex => match self.plex {
                Some(c) => Some(c.read_view("/status/sessions/history/all"@)),
                None => None,
            },
        }
    }

    /// The request that lists what a service has, or the check that says it is not configured.
    pub fn ask(&self, source: StatusSource) -> (r: Result<HttpRequest, ServiceCheck>)
        ensures
            match self.listing_request(source) {
                Some(request) => r matches Ok(x) && x@ == request,
                None => r matches Err(e) && e@ == CheckView::NotConfigured,
            },
    {
        match source {
            StatusSource::Radarr => match &self.radarr {
                Some(c) => Ok(c.library()),
                None => Err(ServiceCheck::NotConfigured),
            },
            StatusSource::Sonarr => match &self.sonarr {
                Some(c) => Ok(c.library()),
                None => Err(ServiceCheck::NotConfigured),
            },
            StatusSource::Plex => match &self.plex {
                Some(c) => Ok(c.history()),
                None => Err(ServiceCheck::NotConfigured),
            },
        }
    }

    /// Where the question to one service stands once it has replied, and once as many comparisons
    /// were rated as it lists items.
    pub open spec fn check_view(
        &self,
        source: StatusSource,
        query: Seq<char>,
        reply: Option<ReplyView>,
        scores: Seq<Option<u64>>,
    ) -> InquiryView {
        match self.listing_request(source) {
            None => InquiryView::Concluded(CheckView::NotConfigured),
            Some(request) => match reply {
                None => InquiryView::Send(request),
                Some(r) => match listed_items(source, r) {
                    Err(m) => InquiryView::Concluded(CheckView::Error(m)),
                    Ok(items) => if scores.len() != items.len() {
                        InquiryView::Rate(item_comparisons(items, query))
                    } else {
                        InquiryView::Concluded(library_check(items, scores))
                    },
                },
            },
        }
    }

    /// Carries the question to one service on as [`Self::check_view`] says.
    pub fn check(&self, source: StatusSource, query: &str, heard: &Heard) -> (r: Inquiry)
        ensures
            r@ == self.check_view(source, query@, opt_reply(heard.reply), heard.scores@),
    {
        let request = match self.ask(source) {
            Ok(request) => request,
            Err(check) => {
                return Inquiry::Concluded(check);
            },
        };
        let items = match &heard.reply {
            None => {
                return Inquiry::Send(request);
            },
            Some(r) => match read_listing(source, r) {
                Ok(items) => items,
                Err(check) => {
                    return Inquiry::Concluded(check);
                },
            },
        };
        assert(jsons(items@).len() == items@.len());
        if heard.scores.len() != items.len() {
            let mut all: Vec<Option<Similarity>> = Vec::new();
            let mut i: usize = 0;
            while i < items.len()
                invariant
                    i <= items.len(),
                    all.len() == i,
                    forall|k: int|
                        0 <= k < i ==> all@[k] == item_similarity((#[trigger] items@[k])@, query@),
                decreases items.len() - i,
            {
                all.push(compare_item(&items[i], query));
                i += 1;
            }
            assert(all@ =~= item_comparisons(jsons(items@), query@));
            return Inquiry::Rate(all);
        }
        Inquiry::Concluded(conclude(&items, &heard.scores))
    }

    /// Where a call stands: the services are asked one after the other, and each concludes for
    /// itself.
    pub open spec fn execute_view(
        &self,
        args: JsonView,
        radarr: Heard,
        sonarr: Heard,
        plex: Heard,
    ) -> StatusView {
        let query = query_view(args, "id_or_title"@);
        if query.len() == 0 {
            StatusView::Failed(ErrorView::InvalidArgument("id_or_title must not be empty"@))
        } else {
            match (
                self.check_view(StatusSource::Radarr, query, opt_reply(radarr.reply), radarr.scores@),
                self.check_view(StatusSource::Sonarr, query, opt_reply(sonarr.reply), sonarr.scores@),
                self.check_view(StatusSource::Plex, query, opt_reply(plex.reply), plex.scores@),
            ) {
                (
                    InquiryView::Concluded(a),
                    InquiryView::Concluded(b),
                    InquiryView::Concluded(c),
                ) => StatusView::Done(status_answer(query, a, b, c)),
                (InquiryView::Concluded(_), InquiryView::Concluded(_), other) => StatusView::Pending(
                    StatusSource::Plex,
                    other,
                ),
                (InquiryView::Concluded(_), other, _) => StatusView::Pending(
                    StatusSource::Sonarr,
                    other,
                ),
                (other, _, _) => StatusView::Pending(StatusSource::Radarr, other),
            }
        }
    }

    /// Carries a call on to its next step as [`Self::execute_view`] says.
    pub fn execute(&self, args: &Json, radarr: &Heard, sonarr: &Heard, plex: &Heard) -> (r:
        StatusStep)
        ensures
            r@ == self.execute_view(args@, *radarr, *sonarr, *plex),
    {
        let query = match MediaStatus::query(args) {
            Ok(q) => q,
            Err(e) => {
                return StatusStep::Failed(e);
            },
        };
        let a = match self.check(StatusSource::Radarr, query, radarr) {
            Inquiry::Concluded(check) => check,
            other => {
                return StatusStep::Pending(StatusSource::Radarr, other);
            },
        };
        let b = match self.check(StatusSource::Sonarr, query, sonarr) {
            Inquiry::Concluded(check) => check,
            other => {
                return StatusStep::Pending(StatusSource::Sonarr, other);
            },
        };
        let c = match self.check(StatusSource::Plex, query, plex) {
            Inquiry::Concluded(check) => check,
            other => {
                return StatusStep::Pending(StatusSource::Plex, other);
            },
        };
        StatusStep::Done(build_status_response(query, a, b, c))
    }
}

/// What was heard from one service: its reply, and the bits of the scores of the items it lists.
#[derive(Debug)]
pub struct Heard {
    pub reply: Option<HttpReply>,
    pub scores: Vec<Option<u64>>,
}

/// Where the question to one service stands.
#[derive(Debug)]
pub enum Inquiry {
    /// This is what the service says.
    Concluded(ServiceCheck),
    /// Send this request and come back with the reply.
    Send(HttpRequest),
    /// Say what these comparisons are worth and come back with the scores.
    Rate(Vec<Option<Similarity>>),
}

/// The content of an [`Inquiry`].
pub enum InquiryView {
    Concluded(CheckView),
    Send(RequestView),
    Rate(Seq<Option<Similarity>>),
}

impl View for Inquiry {
    type V = InquiryView;

    open spec fn view(&self) -> InquiryView {
        match *self {
            Inquiry::Concluded(check) => InquiryView::Concluded(check@),
            Inquiry::Send(request) => InquiryView::Send(request@),
            Inquiry::Rate(all) => InquiryView::Rate(all@),
        }
    }
}

/// Where a status call stands.
#[derive(Debug)]
pub enum StatusStep {
    /// The answer is ready.
    Done(Json),
    /// The call failed.
    Failed(ToolError),
    /// This is left to do about a service.
    Pending(StatusSource, Inquiry),
}

/// The content of a [`StatusStep`].
pub enum StatusView {
    Done(JsonView),
    Failed(ErrorView),
    Pending(StatusSource, InquiryView),
}

impl View for StatusStep {
    type V = StatusView;

    open spec fn view(&self) -> StatusView {
        match *self {
            StatusStep::Done(answer) => StatusView::Done(answer@),
            StatusStep::Failed(e) => StatusView::Failed(e@),
            StatusStep::Pending(source, inquiry) => StatusView::Pending(source, inquiry@),
        }
    }
}

/// How the items of a library compare with a query.
pub open spec fn item_comparisons(items: Seq<JsonView>, query: Seq<char>) -> Seq<
    Option<Similarity>,
> {
    items.map_values(|item: JsonView| item_similarity(item, query))
}

/// No service can fail a status call: it only fails where nothing is asked about.
pub proof fn services_never_fail_a_status_call(
    tool: MediaStatus,
    args: JsonView,
    radarr: Heard,
    sonarr: Heard,
    plex: Heard,
)
    ensures
        tool.execute_view(args, radarr, sonarr, plex) is Failed <==> query_view(
            args,
            "id_or_title"@,
        ).len() == 0,
{
}

/// What the answer says about a service is what that service's check says, whatever the others say.
pub proof fn services_speak_for_themselves(
    query: Seq<char>,
    radarr: CheckView,
    sonarr: CheckView,
    plex: CheckView,
)
    ensures
        status_answer(query, radarr, sonarr, plex).at("structured"@).at("radarr"@) == check_json(
            radarr,
        ),
        status_answer(query, radarr, sonarr, plex).at("structured"@).at("sonarr"@) == check_json(
            sonarr,
        ),
        status_answer(query, radarr, sonarr, plex).at("structured"@).at("plex"@) == check_json(
            plex,
        ),
{
    broadcast use crate::json::lemma_lookup_push;

    reveal_strlit("radarr");
    reveal_strlit("sonarr");
    reveal_strlit("plex");
    assert("radarr"@[0] == 'r');
    assert("sonarr"@[0] == 's');
    assert("radarr"@.len() == 6);
    assert("plex"@.len() == 4);
}

// ── registration ────────────────────────────────────────────────────────────

/// What the search tool says about itself.
pub open spec fn search_info() -> InfoView {
    InfoView {
        name: "media_search"@,
        description: "Resolve a fuzzy natural-language movie/show title (e.g. \"that dark sci-fi thing with the AI\" or a partial title) to real TMDb candidates. Read-only -- does not request or download anything. Returns ranked candidates when the match is ambiguous (e.g. a remake sharing a title with the original) instead of guessing, and a friendly not-found message with refinement suggestions when nothing resolves."@,
        parameters: required_object_view(
            no_fields()
                .push(("query"@, described_view("string"@, "Natural-language or partial movie/show title to resolve."@))),
            no_texts().push("query"@),
        ),
    }
}

impl MediaSearch {
    /// What this tool says about itself.
    pub fn info() -> (r: ToolInfo)
        ensures
            r@ == search_info(),
    {
        let parameters = required_object(
            Fields::new()
                .with("query", described("string", "Natural-language or partial movie/show title to resolve.")),
            TextList::new().with("query"),
        );
        describe(
            "media_search",
            "Resolve a fuzzy natural-language movie/show title (e.g. \"that dark sci-fi thing with the AI\" or a partial title) to real TMDb candidates. Read-only -- does not request or download anything. Returns ranked candidates when the match is ambiguous (e.g. a remake sharing a title with the original) instead of guessing, and a friendly not-found message with refinement suggestions when nothing resolves.",
            parameters,
        )
    }
}

/// What the status tool says about itself.
pub open spec fn status_info() -> InfoView {
    InfoView {
        name: "media_status"@,
        description: "Check whether a movie or show (by title, or the title returned from media_search) is already in the library -- present in Radarr/Sonarr, available to watch in Plex, and at what quality. Read-only -- does not request or download anything. Degrades gracefully per-service: an unconfigured or unreachable service is reported as such without failing the whole check."@,
        parameters: required_object_view(
            no_fields()
                .push(("id_or_title"@, described_view("string"@, "Title (or TMDb id as a string) to check status for."@))),
            no_texts().push("id_or_title"@),
        ),
    }
}

impl MediaStatus {
    /// What this tool says about itself.
    pub fn info() -> (r: ToolInfo)
        ensures
            r@ == status_info(),
    {
        let parameters = required_object(
            Fields::new()
                .with("id_or_title", described("string", "Title (or TMDb id as a string) to check status for.")),
            TextList::new().with("id_or_title"),
        );
        describe(
            "media_status",
            "Check whether a movie or show (by title, or the title returned from media_search) is already in the library -- present in Radarr/Sonarr, available to watch in Plex, and at what quality. Read-only -- does not request or download anything. Degrades gracefully per-service: an unconfigured or unreachable service is reported as such without failing the whole check.",
            parameters,
        )
    }
}

/// Offers the search and status tools.
pub fn register(registry: &mut ToolRegistry)
    ensures
        final(registry)@ == with_tool(with_tool(old(registry)@, search_info()), status_info()),
{
    registry.register_or_replace(MediaSearch::info());
    registry.register_or_replace(MediaStatus::info());
}

} // verus!
