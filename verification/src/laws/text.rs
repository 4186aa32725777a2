//! What cutting, joining and writing out texts come to.
use vstd::prelude::*;

use crate::text::{
    all_digits, dec, dec2, dec_nat, digits_value, first_chars, has_substring, is_white, joined,
    parse_int, parse_int64, run_length, trim_back, trim_front, trimmed,
    trimming_twice_is_trimming_once, without_leading, without_trailing, words_from, words_of,
};

verus! {

/// Whether a text is made of white space.
pub open spec fn is_blank(s: Seq<char>) -> bool {
    forall|i: int| 0 <= i < s.len() ==> is_white(#[trigger] s[i])
}

proof fn lemma_front(s: Seq<char>) -> (cut: Seq<char>)
    ensures
        s == cut + trim_front(s),
        is_blank(cut),
    decreases s.len(),
{
    if s.len() > 0 && is_white(s[0]) {
        let rest = s.subrange(1, s.len() as int);
        let more = lemma_front(rest);
        let cut = seq![s[0]] + more;
        assert(s =~= seq![s[0]] + rest);
        assert(seq![s[0]] + (more + trim_front(rest)) =~= cut + trim_front(rest));
        cut
    } else {
        assert(s =~= Seq::<char>::empty() + s);
        Seq::empty()
    }
}

proof fn lemma_back(s: Seq<char>) -> (cut: Seq<char>)
    ensures
        s == trim_back(s) + cut,
        is_blank(cut),
    decreases s.len(),
{
    if s.len() > 0 && is_white(s.last()) {
        let more = lemma_back(s.drop_last());
        let cut = more.push(s.last());
        assert(s =~= s.drop_last().push(s.last()));
        assert((trim_back(s.drop_last()) + more).push(s.last()) =~= trim_back(s.drop_last()) + cut);
        cut
    } else {
        assert(s =~= s + Seq::<char>::empty());
        Seq::empty()
    }
}

/// Trimming takes white space away from both ends, all of it and nothing else.
pub proof fn trimming_takes_only_white_space(s: Seq<char>)
    ensures
        exists|front: Seq<char>, back: Seq<char>|
            is_blank(front) && is_blank(back) && s == #[trigger] (front + trimmed(s) + back),
        trimmed(s).len() > 0 ==> !is_white(trimmed(s)[0]) && !is_white(trimmed(s).last()),
{
    trimming_twice_is_trimming_once(s);
    let front = lemma_front(s);
    let back = lemma_back(trim_front(s));
    assert(s =~= front + trimmed(s) + back);
}

/// A run of one character.
pub open spec fn is_run_of(s: Seq<char>, c: char) -> bool {
    forall|i: int| 0 <= i < s.len() ==> #[trigger] s[i] == c
}

/// What is stripped from an end is that character, as often as it stands there.
#[verifier::rlimit(30)]
pub proof fn stripping_takes_only_the_character(s: Seq<char>, c: char)
    ensures
        exists|cut: Seq<char>| is_run_of(cut, c) && s == #[trigger] (without_trailing(s, c) + cut),
        without_trailing(s, c).len() > 0 ==> without_trailing(s, c).last() != c,
        exists|cut: Seq<char>| is_run_of(cut, c) && s == #[trigger] (cut + without_leading(s, c)),
        without_leading(s, c).len() > 0 ==> without_leading(s, c)[0] != c,
    decreases s.len(),
{
    if s.len() > 0 && s.last() == c {
        let rest = s.drop_last();
        stripping_takes_only_the_character(rest, c);
        let cut = choose|cut: Seq<char>|
            is_run_of(cut, c) && rest == #[trigger] (without_trailing(rest, c) + cut);
        assert(s =~= rest.push(c));
        assert((without_trailing(rest, c) + cut).push(c) =~= without_trailing(rest, c) + cut.push(c));
        assert(s == without_trailing(s, c) + cut.push(c));
        assert(is_run_of(cut.push(c), c));
    } else {
        assert(s =~= without_trailing(s, c) + Seq::<char>::empty());
        assert(is_run_of(Seq::<char>::empty(), c));
    }
    if s.len() > 0 && s[0] == c {
        let rest = s.subrange(1, s.len() as int);
        stripping_takes_only_the_character(rest, c);
        let cut = choose|cut: Seq<char>|
            is_run_of(cut, c) && rest == #[trigger] (cut + without_leading(rest, c));
        assert(s =~= seq![c] + rest);
        assert(seq![c] + (cut + without_leading(rest, c)) =~= (seq![c] + cut) + without_leading(
            rest,
            c,
        ));
        assert(s == (seq![c] + cut) + without_leading(s, c));
        assert(is_run_of(seq![c] + cut, c));
    } else {
        assert(s =~= Seq::<char>::empty() + without_leading(s, c));
        assert(is_run_of(Seq::<char>::empty(), c));
    }
}

/// Texts are joined in order, with the separator between any two neighbours and nowhere else.
pub proof fn joining_puts_separators_between(a: Seq<Seq<char>>, b: Seq<Seq<char>>, sep: Seq<char>)
    ensures
        joined(Seq::empty(), sep).len() == 0,
        a.len() == 1 ==> joined(a, sep) == a[0],
        a.len() > 0 && b.len() > 0 ==> joined(a + b, sep) == joined(a, sep) + sep + joined(b, sep),
    decreases b.len(),
{
    if a.len() > 0 && b.len() > 0 {
        assert((a + b).drop_last() =~= a + b.drop_last());
        assert((a + b).last() == b.last());
        if b.len() == 1 {
            assert(a + b.drop_last() =~= a);
        } else {
            joining_puts_separators_between(a, b.drop_last(), sep);
            assert(joined(a + b, sep) =~= joined(a, sep) + sep + joined(b, sep));
        }
    }
}

proof fn lemma_digits(n: nat)
    ensures
        all_digits(dec_nat(n)),
        digits_value(dec_nat(n)) == n,
        n > 0 ==> dec_nat(n)[0] != '0',
        dec_nat(n).len() > 0,
        n >= 10 ==> dec_nat(n).len() >= 2,
    decreases n,
{
    if n < 10 {
        let s = dec_nat(n);
        assert(s.drop_last() =~= Seq::<char>::empty());
        assert(digits_value(s.drop_last()) == 0);
        let c = ((48 + n) as u32) as char;
        assert(s.last() as u32 == 48 + n);
    } else {
        lemma_digits(n / 10);
        let front = dec_nat(n / 10);
        let s = dec_nat(n);
        assert(s.drop_last() =~= front);
        assert(s.last() as u32 == 48 + n % 10);
        assert(digits_value(s) == (n / 10) * 10 + n % 10);
        assert forall|i: int| 0 <= i < s.len() implies 48 <= (#[trigger] s[i]) as u32 <= 57 by {
            if i < front.len() {
                assert(s[i] == front[i]);
            }
        }
        assert(s[0] == front[0]);
    }
}

/// An integer that is written out reads as that integer, and has no needless zero in front.
pub proof fn integers_are_written_as_they_read(n: int)
    ensures
        parse_int(dec(n)) == Some(n),
        i64::MIN <= n <= i64::MAX ==> parse_int64(dec(n)) == Some(n),
        n > 0 ==> dec(n)[0] != '0',
        parse_int(dec2(n)) == Some(n),
        n >= 0 ==> dec2(n).len() >= 2,
{
    reveal_strlit("-");
    reveal_strlit("0");
    if n < 0 {
        let m = (-n) as nat;
        lemma_digits(m);
        let s = dec(n);
        assert(s.subrange(1, s.len() as int) =~= dec_nat(m));
    } else {
        lemma_digits(n as nat);
        assert(48 <= dec(n)[0] as u32 <= 57);
        if n < 10 {
            let s = dec2(n);
            assert(s.len() == 2);
            assert(s[0] == '0');
            assert(s.drop_last() =~= seq!['0']);
            assert(seq!['0'].drop_last() =~= Seq::<char>::empty());
            assert(digits_value(Seq::<char>::empty()) == 0);
            assert(digits_value(seq!['0']) == 0);
            assert(s.last() == dec_nat(n as nat)[0]);
            assert(s.last() as u32 == 48 + n);
        }
    }
}

/// The beginning of a text is the text itself where it is short enough, and else as many of its
/// first characters as asked for.
pub proof fn beginnings_are_beginnings(s: Seq<char>, n: nat)
    ensures
        first_chars(s, n).len() == if s.len() < n {
            s.len()
        } else {
            n
        },
        forall|i: int| 0 <= i < first_chars(s, n).len() ==> #[trigger] first_chars(s, n)[i] == s[i],
{
}

/// Strings stand for their characters, one by one and in order, and a missing string for none.
pub proof fn strings_stand_for_their_characters(s: String, t: &str, v: Vec<String>)
    ensures
        crate::text::opt_text(Some(s)) == Some(s@),
        crate::text::opt_text(None) is None,
        crate::text::opt_str(Some(t)) == Some(t@),
        crate::text::opt_str(None) is None,
        crate::text::texts(v@).len() == v@.len(),
        forall|i: int| 0 <= i < v@.len() ==> #[trigger] crate::text::texts(v@)[i] == v@[i]@,
{
}

/// The capital letters of ASCII become the small ones, each in its place of the alphabet; every other
/// character stays, the small letters among them.
pub proof fn capitals_become_small(c: char, n: u8)
    requires
        n < 26,
    ensures
        crate::text::ascii_lower_char((('A' as u8) + n) as char) == (('a' as u8) + n) as char,
        crate::text::ascii_lower_char((('a' as u8) + n) as char) == (('a' as u8) + n) as char,
        !('A' <= c && c <= 'Z') ==> crate::text::ascii_lower_char(c) == c,
{
}

/// A text holds another exactly where the other stands between a beginning and an end of it, either
/// of which may be empty.
pub proof fn what_is_held_stands_between(hay: Seq<char>, needle: Seq<char>)
    ensures
        has_substring(hay, needle) <==> exists|before: Seq<char>, after: Seq<char>|
            hay == #[trigger] (before + needle + after),
{
    if has_substring(hay, needle) {
        let i = choose|i: int| crate::text::occurs_at(hay, needle, i);
        let before = hay.subrange(0, i);
        let after = hay.subrange(i + needle.len(), hay.len() as int);
        assert(hay =~= before + hay.subrange(i, i + needle.len()) + after);
        assert(hay == before + needle + after);
    }
    if exists|before: Seq<char>, after: Seq<char>| hay == #[trigger] (before + needle + after) {
        let (before, after) = choose|before: Seq<char>, after: Seq<char>|
            hay == #[trigger] (before + needle + after);
        let i = before.len() as int;
        assert(hay.subrange(i, i + needle.len()) =~= needle);
        assert(crate::text::occurs_at(hay, needle, i));
    }
}

/// White space between two texts keeps their words apart, and a text without white space is a single
/// word.
pub proof fn white_space_parts_words(a: Seq<char>, w: char, b: Seq<char>)
    ensures
        is_white(w) ==> words_of(a + seq![w] + b) == words_of(a) + words_of(b),
        words_of(Seq::empty()) == Seq::<Seq<char>>::empty(),
        a.len() > 0 && (forall|i: int| 0 <= i < a.len() ==> !is_white(#[trigger] a[i]))
            ==> words_of(a) == seq![a],
{
    if is_white(w) {
        lemma_parted(a, w, b, 0);
    }
    if a.len() > 0 && (forall|i: int| 0 <= i < a.len() ==> !is_white(#[trigger] a[i])) {
        lemma_whole_run(a, 0);
        assert(a.subrange(0, a.len() as int) =~= a);
        assert(words_from(a, a.len() as int) =~= Seq::empty());
        assert(words_of(a) =~= seq![a]);
    }
}

proof fn lemma_whole_run(s: Seq<char>, i: int)
    requires
        0 <= i <= s.len(),
        forall|k: int| 0 <= k < s.len() ==> !is_white(#[trigger] s[k]),
    ensures
        run_length(s, i) == s.len() - i,
    decreases s.len() - i,
{
    if i < s.len() {
        lemma_whole_run(s, i + 1);
    }
}

/// How long a run is depends only on what follows.
proof fn lemma_same_run(s: Seq<char>, i: int, t: Seq<char>, j: int)
    requires
        0 <= i <= s.len(),
        0 <= j <= t.len(),
        s.len() - i == t.len() - j,
        forall|k: int| 0 <= k < s.len() - i ==> #[trigger] s[i + k] == t[j + k],
    ensures
        run_length(s, i) == run_length(t, j),
    decreases s.len() - i,
{
    if i < s.len() {
        assert(s[i + 0] == t[j + 0]);
        assert forall|k: int| 0 <= k < s.len() - (i + 1) implies #[trigger] s[i + 1 + k] == t[j + 1
            + k] by {
            assert(s[i + (k + 1)] == t[j + (k + 1)]);
        }
        lemma_same_run(s, i + 1, t, j + 1);
    }
}

proof fn lemma_same_words(s: Seq<char>, i: int, t: Seq<char>, j: int)
    requires
        0 <= i <= s.len(),
        0 <= j <= t.len(),
        s.len() - i == t.len() - j,
        forall|k: int| 0 <= k < s.len() - i ==> #[trigger] s[i + k] == t[j + k],
    ensures
        words_from(s, i) == words_from(t, j),
    decreases s.len() - i,
{
    if i < s.len() {
        assert(s[i + 0] == t[j + 0]);
        if is_white(s[i]) {
            assert forall|k: int| 0 <= k < s.len() - (i + 1) implies #[trigger] s[i + 1 + k] == t[j
                + 1 + k] by {
                assert(s[i + (k + 1)] == t[j + (k + 1)]);
            }
            lemma_same_words(s, i + 1, t, j + 1);
        } else {
            lemma_same_run(s, i, t, j);
            lemma_run(s, i);
            let n = run_length(s, i) as int;
            assert forall|k: int| 0 <= k < s.len() - (i + n) implies #[trigger] s[i + n + k] == t[j
                + n + k] by {
                assert(s[i + (k + n)] == t[j + (k + n)]);
            }
            lemma_same_words(s, i + n, t, j + n);
            assert(s.subrange(i, i + n) =~= t.subrange(j, j + n)) by {
                assert forall|k: int| 0 <= k < n implies #[trigger] s.subrange(i, i + n)[k] == t.subrange(
                    j,
                    j + n,
                )[k] by {
                    assert(s[i + k] == t[j + k]);
                }
            }
        }
    }
}

proof fn lemma_run_before(a: Seq<char>, w: char, b: Seq<char>, i: int)
    requires
        is_white(w),
        0 <= i <= a.len(),
    ensures
        run_length(a + seq![w] + b, i) == run_length(a, i),
    decreases a.len() - i,
{
    let s = a + seq![w] + b;
    if i < a.len() {
        assert(s[i] == a[i]);
        lemma_run_before(a, w, b, i + 1);
    } else {
        assert(s[i] == w);
    }
}

proof fn lemma_parted(a: Seq<char>, w: char, b: Seq<char>, i: int)
    requires
        is_white(w),
        0 <= i <= a.len(),
    ensures
        words_from(a + seq![w] + b, i) == words_from(a, i) + words_from(b, 0),
    decreases a.len() - i,
{
    let s = a + seq![w] + b;
    if i == a.len() {
        assert(s[i] == w);
        assert forall|k: int| 0 <= k < s.len() - (i + 1) implies #[trigger] s[i + 1 + k] == b[0
            + k] by {}
        lemma_same_words(s, i + 1, b, 0);
        assert(words_from(a, i) =~= Seq::empty());
        assert(words_from(s, i) =~= words_from(a, i) + words_from(b, 0));
    } else {
        assert(s[i] == a[i]);
        if is_white(a[i]) {
            lemma_parted(a, w, b, i + 1);
        } else {
            lemma_run_before(a, w, b, i);
            lemma_run(a, i);
            let n = run_length(a, i) as int;
            lemma_parted(a, w, b, i + n);
            assert(s.subrange(i, i + n) =~= a.subrange(i, i + n));
            assert(words_from(s, i) =~= words_from(a, i) + words_from(b, 0));
        }
    }
}

/// The words of a text are not empty and hold no white space, and one after the other they are the
/// text without its white space.
pub proof fn words_are_what_white_space_leaves(s: Seq<char>)
    ensures
        forall|k: int|
            0 <= k < words_of(s).len() ==> (#[trigger] words_of(s)[k]).len() > 0 && (forall|i: int|
                0 <= i < words_of(s)[k].len() ==> !is_white(#[trigger] words_of(s)[k][i])),
        words_of(s).flatten() == s.filter(|c: char| !is_white(c)),
{
    lemma_words(s, 0);
    assert(s.subrange(0, s.len() as int) =~= s);
}

proof fn lemma_run(s: Seq<char>, i: int)
    requires
        0 <= i <= s.len(),
    ensures
        i + run_length(s, i) <= s.len(),
        forall|k: int| i <= k < i + run_length(s, i) ==> !is_white(#[trigger] s[k]),
        i < s.len() && !is_white(s[i]) ==> run_length(s, i) > 0,
    decreases s.len() - i,
{
    if i < s.len() && !is_white(s[i]) {
        lemma_run(s, i + 1);
    }
}

proof fn lemma_unfiltered(s: Seq<char>)
    requires
        forall|i: int| 0 <= i < s.len() ==> !is_white(#[trigger] s[i]),
    ensures
        s.filter(|c: char| !is_white(c)) == s,
    decreases s.len(),
{
    reveal(Seq::filter);
    if s.len() > 0 {
        lemma_unfiltered(s.drop_last());
        assert(s.drop_last().push(s.last()) =~= s);
    } else {
        assert(s =~= Seq::empty());
    }
}

proof fn lemma_words(s: Seq<char>, i: int)
    requires
        0 <= i <= s.len(),
    ensures
        forall|k: int|
            0 <= k < words_from(s, i).len() ==> (#[trigger] words_from(s, i)[k]).len() > 0 && (
            forall|j: int|
                0 <= j < words_from(s, i)[k].len() ==> !is_white(#[trigger] words_from(s, i)[k][j])),
        words_from(s, i).flatten() == s.subrange(i, s.len() as int).filter(|c: char| !is_white(c)),
    decreases s.len() - i,
{
    let pred = |c: char| !is_white(c);
    let rest = s.subrange(i, s.len() as int);
    if i >= s.len() {
        assert(rest =~= Seq::<char>::empty());
        reveal(Seq::filter);
        assert(words_from(s, i).flatten() =~= Seq::<char>::empty());
    } else if is_white(s[i]) {
        lemma_words(s, i + 1);
        let tail = s.subrange(i + 1, s.len() as int);
        let one = seq![s[i]];
        assert(rest =~= one + tail);
        Seq::filter_distributes_over_add(one, tail, pred);
        assert(one.filter(pred) =~= Seq::<char>::empty()) by {
            reveal(Seq::filter);
            assert(one.drop_last() =~= Seq::<char>::empty());
            assert(one.drop_last().filter(pred) =~= Seq::<char>::empty());
            assert(one.last() == s[i]);
            assert(!pred(one.last()));
        }
        assert(rest.filter(pred) =~= tail.filter(pred));
    } else {
        lemma_run(s, i);
        let n = run_length(s, i) as int;
        lemma_words(s, i + n);
        let word = s.subrange(i, i + n);
        let tail = s.subrange(i + n, s.len() as int);
        let more = words_from(s, i + n);
        assert(rest =~= word + tail);
        Seq::filter_distributes_over_add(word, tail, pred);
        assert forall|j: int| 0 <= j < word.len() implies !is_white(#[trigger] word[j]) by {
            assert(word[j] == s[i + j]);
        }
        lemma_unfiltered(word);
        let all = words_from(s, i);
        assert(all == seq![word] + more);
        assert(all.first() == word);
        assert(all.drop_first() =~= more);
        assert(all.flatten() == word + more.flatten());
        assert forall|k: int| 0 <= k < all.len() implies (#[trigger] all[k]).len() > 0 && (forall|
            j: int,
        |
            0 <= j < all[k].len() ==> !is_white(#[trigger] all[k][j])) by {
            if k > 0 {
                assert(all[k] == more[k - 1]);
            }
        }
    }
}

} // verus!
