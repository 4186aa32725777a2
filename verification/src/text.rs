//! Text primitives, stated over the character sequence a string holds.
use vstd::prelude::*;
use vstd::string::*;

verus! {

// ── characters ──────────────────────────────────────────────────────────────

/// The characters of `s`, in order.
pub fn chars_of(s: &str) -> (r: Vec<char>)
    ensures
        r@ == s@,
{
    let mut out: Vec<char> = Vec::new();
    for c in it: s.chars()
        invariant
            out@ == it.seq().take(it.index()),
            it.seq() == s@,
    {
        out.push(c);
        assert(out@ =~= it.seq().take(it.index() + 1));
    }
    assert(out@ =~= s@);
    out
}

/// Whether two strings hold the same characters.
pub fn same(a: &str, b: &str) -> (r: bool)
    ensures
        r == (a@ == b@),
{
    let x = chars_of(a);
    let y = chars_of(b);
    if x.len() != y.len() {
        return false;
    }
    let mut i: usize = 0;
    while i < x.len()
        invariant
            i <= x.len(),
            x.len() == y.len(),
            x@ == a@,
            y@ == b@,
            forall|k: int| 0 <= k < i ==> x@[k] == y@[k],
        decreases x.len() - i,
    {
        if x[i] != y[i] {
            return false;
        }
        i += 1;
    }
    assert(x@ =~= y@);
    true
}

/// An owned copy of `s`.
pub fn owned(s: &str) -> (r: String)
    ensures
        r@ == s@,
{
    String::from_str(s)
}

/// An owned copy of an optional string.
pub fn owned_opt(s: Option<&str>) -> (r: Option<String>)
    ensures
        opt_text(r) == opt_str(s),
{
    match s {
        Some(x) => Some(owned(x)),
        None => None,
    }
}

/// The character view of an optional owned string.
pub open spec fn opt_text(s: Option<String>) -> Option<Seq<char>> {
    match s {
        Some(x) => Some(x@),
        None => None,
    }
}

/// The character view of an optional borrowed string.
pub open spec fn opt_str(s: Option<&str>) -> Option<Seq<char>> {
    match s {
        Some(x) => Some(x@),
        None => None,
    }
}

/// The character views of a list of strings.
pub open spec fn texts(v: Seq<String>) -> Seq<Seq<char>> {
    v.map_values(|s: String| s@)
}

// ── trimming ────────────────────────────────────────────────────────────────

/// The characters with Unicode's `White_Space` property.
pub open spec fn is_white(c: char) -> bool {
    let n = c as u32;
    ||| 9 <= n <= 13
    ||| n == 0x20
    ||| n == 0x85
    ||| n == 0xA0
    ||| n == 0x1680
    ||| 0x2000 <= n <= 0x200A
    ||| n == 0x2028
    ||| n == 0x2029
    ||| n == 0x202F
    ||| n == 0x205F
    ||| n == 0x3000
}

/// Whether `c` has the `White_Space` property.
pub fn white(c: char) -> (r: bool)
    ensures
        r == is_white(c),
{
    let n: u32 = c as u32;
    (9 <= n && n <= 13) || n == 0x20 || n == 0x85 || n == 0xA0 || n == 0x1680 || (0x2000 <= n && n
        <= 0x200A) || n == 0x2028 || n == 0x2029 || n == 0x202F || n == 0x205F || n == 0x3000
}

/// `s` without its leading white space.
pub open spec fn trim_front(s: Seq<char>) -> Seq<char>
    decreases s.len(),
{
    if s.len() > 0 && is_white(s[0]) {
        trim_front(s.subrange(1, s.len() as int))
    } else {
        s
    }
}

/// `s` without its trailing white space.
pub open spec fn trim_back(s: Seq<char>) -> Seq<char>
    decreases s.len(),
{
    if s.len() > 0 && is_white(s.last()) {
        trim_back(s.drop_last())
    } else {
        s
    }
}

/// `s` without leading and trailing white space.
pub open spec fn trimmed(s: Seq<char>) -> Seq<char> {
    trim_back(trim_front(s))
}

proof fn lemma_trim_front(s: Seq<char>)
    ensures
        trim_front(s).len() > 0 ==> !is_white(trim_front(s)[0]),
    decreases s.len(),
{
    if s.len() > 0 && is_white(s[0]) {
        lemma_trim_front(s.subrange(1, s.len() as int));
    }
}

proof fn lemma_trim_back(s: Seq<char>)
    ensures
        trim_back(s).len() > 0 ==> !is_white(trim_back(s).last()) && trim_back(s)[0] == s[0]
            && s.len() > 0,
    decreases s.len(),
{
    if s.len() > 0 && is_white(s.last()) {
        lemma_trim_back(s.drop_last());
    }
}

/// What was trimmed has nothing left to trim.
pub proof fn trimming_twice_is_trimming_once(s: Seq<char>)
    ensures
        trimmed(trimmed(s)) == trimmed(s),
        trimmed(s).len() > 0 ==> !is_white(trimmed(s)[0]) && !is_white(trimmed(s).last()),
{
    lemma_trim_front(s);
    lemma_trim_back(trim_front(s));
}

/// `s` without leading and trailing white space.
pub fn trim(s: &str) -> (r: &str)
    ensures
        r@ == trimmed(s@),
{
    let v = chars_of(s);
    let n = v.len();
    let mut lo: usize = 0;
    assert(s@.subrange(0, n as int) =~= s@);
    while lo < n && white(v[lo])
        invariant
            lo <= n,
            n == v.len(),
            v@ == s@,
            trim_front(s@) == trim_front(s@.subrange(lo as int, n as int)),
        decreases n - lo,
    {
        let ghost cur = s@.subrange(lo as int, n as int);
        assert(cur[0] == v@[lo as int]);
        assert(cur.subrange(1, cur.len() as int) =~= s@.subrange(lo + 1, n as int));
        lo += 1;
    }
    let ghost front = s@.subrange(lo as int, n as int);
    assert(trim_front(s@) == front) by {
        if front.len() > 0 {
            assert(front[0] == v@[lo as int]);
        }
    }
    let mut hi: usize = n;
    assert(front =~= s@.subrange(lo as int, hi as int));
    while lo < hi && white(v[hi - 1])
        invariant
            lo <= hi <= n,
            n == v.len(),
            v@ == s@,
            trimmed(s@) == trim_back(s@.subrange(lo as int, hi as int)),
        decreases hi - lo,
    {
        let ghost cur = s@.subrange(lo as int, hi as int);
        assert(cur.last() == v@[hi - 1]);
        assert(cur.drop_last() =~= s@.subrange(lo as int, hi - 1));
        hi -= 1;
    }
    assert(trimmed(s@) == s@.subrange(lo as int, hi as int)) by {
        let cur = s@.subrange(lo as int, hi as int);
        if cur.len() > 0 {
            assert(cur.last() == v@[hi - 1]);
        }
    }
    s.substring_char(lo, hi)
}

/// `s` without trailing `c`s.
pub open spec fn without_trailing(s: Seq<char>, c: char) -> Seq<char>
    decreases s.len(),
{
    if s.len() > 0 && s.last() == c {
        without_trailing(s.drop_last(), c)
    } else {
        s
    }
}

/// `s` without leading `c`s.
pub open spec fn without_leading(s: Seq<char>, c: char) -> Seq<char>
    decreases s.len(),
{
    if s.len() > 0 && s[0] == c {
        without_leading(s.subrange(1, s.len() as int), c)
    } else {
        s
    }
}

/// `s` without trailing `c`s.
pub fn strip_trailing(s: &str, c: char) -> (r: &str)
    ensures
        r@ == without_trailing(s@, c),
{
    let v = chars_of(s);
    let mut hi: usize = v.len();
    assert(s@ =~= s@.subrange(0, hi as int));
    while hi > 0 && v[hi - 1] == c
        invariant
            hi <= v.len(),
            v@ == s@,
            without_trailing(s@, c) == without_trailing(s@.subrange(0, hi as int), c),
        decreases hi,
    {
        let ghost cur = s@.subrange(0, hi as int);
        assert(cur.last() == v@[hi - 1]);
        assert(cur.drop_last() =~= s@.subrange(0, hi - 1));
        hi -= 1;
    }
    assert(without_trailing(s@, c) == s@.subrange(0, hi as int)) by {
        let cur = s@.subrange(0, hi as int);
        if cur.len() > 0 {
            assert(cur.last() == v@[hi - 1]);
        }
    }
    s.substring_char(0, hi)
}

/// `s` without leading `c`s.
pub fn strip_leading(s: &str, c: char) -> (r: &str)
    ensures
        r@ == without_leading(s@, c),
{
    let v = chars_of(s);
    let n = v.len();
    let mut lo: usize = 0;
    assert(s@ =~= s@.subrange(0, n as int));
    while lo < n && v[lo] == c
        invariant
            lo <= n,
            n == v.len(),
            v@ == s@,
            without_leading(s@, c) == without_leading(s@.subrange(lo as int, n as int), c),
        decreases n - lo,
    {
        let ghost cur = s@.subrange(lo as int, n as int);
        assert(cur[0] == v@[lo as int]);
        assert(cur.subrange(1, cur.len() as int) =~= s@.subrange(lo + 1, n as int));
        lo += 1;
    }
    assert(without_leading(s@, c) == s@.subrange(lo as int, n as int)) by {
        let cur = s@.subrange(lo as int, n as int);
        if cur.len() > 0 {
            assert(cur[0] == v@[lo as int]);
        }
    }
    s.substring_char(lo, n)
}

// ── searching ───────────────────────────────────────────────────────────────

/// Whether `needle` stands in `hay` at offset `i`.
pub open spec fn occurs_at(hay: Seq<char>, needle: Seq<char>, i: int) -> bool {
    0 <= i <= hay.len() - needle.len() && hay.subrange(i, i + needle.len()) == needle
}

/// Whether `needle` stands anywhere in `hay`.
pub open spec fn has_substring(hay: Seq<char>, needle: Seq<char>) -> bool {
    exists|i: int| occurs_at(hay, needle, i)
}

/// Whether `needle` stands anywhere in `hay`.
pub fn contains(hay: &str, needle: &str) -> (r: bool)
    ensures
        r == has_substring(hay@, needle@),
{
    let h = chars_of(hay);
    let n = chars_of(needle);
    if n.len() > h.len() {
        return false;
    }
    let last: usize = h.len() - n.len();
    let mut i: usize = 0;
    loop
        invariant
            h@ == hay@,
            n@ == needle@,
            n.len() <= h.len(),
            last == h.len() - n.len(),
            i <= last,
            forall|k: int| 0 <= k < i ==> !occurs_at(hay@, needle@, k),
        decreases last - i,
    {
        let mut j: usize = 0;
        while j < n.len() && h[i + j] == n[j]
            invariant
                j <= n.len(),
                i + n.len() <= h.len(),
                forall|k: int| 0 <= k < j ==> h@[i + k] == n@[k],
            decreases n.len() - j,
        {
            j += 1;
        }
        if j == n.len() {
            assert(hay@.subrange(i as int, i + needle@.len()) =~= needle@);
            assert(occurs_at(hay@, needle@, i as int));
            return true;
        }
        assert(!occurs_at(hay@, needle@, i as int)) by {
            assert(hay@.subrange(i as int, i + needle@.len())[j as int] == h@[i + j]);
        }
        if i == last {
            return false;
        }
        i += 1;
    }
}

/// Whether `s` begins with `prefix`.
pub open spec fn has_prefix(s: Seq<char>, prefix: Seq<char>) -> bool {
    occurs_at(s, prefix, 0)
}

/// What follows `prefix` in `s`, where `s` begins with it.
pub open spec fn after_prefix(s: Seq<char>, prefix: Seq<char>) -> Option<Seq<char>> {
    if has_prefix(s, prefix) {
        Some(s.subrange(prefix.len() as int, s.len() as int))
    } else {
        None
    }
}

/// What follows a prefix is what makes up the whole behind it.
pub proof fn prefixes_are_taken_off(prefix: Seq<char>, rest: Seq<char>, whole: Seq<char>)
    ensures
        after_prefix(whole, prefix) == Some(rest) <==> whole == prefix + rest,
{
    if whole == prefix + rest {
        assert(whole.subrange(0, prefix.len() as int) =~= prefix);
        assert(whole.subrange(prefix.len() as int, whole.len() as int) =~= rest);
    }
    if after_prefix(whole, prefix) == Some(rest) {
        assert(whole =~= prefix + rest);
    }
}

/// What follows `prefix` in `s`, where `s` begins with it.
pub fn strip_prefix<'a>(s: &'a str, prefix: &str) -> (r: Option<&'a str>)
    ensures
        opt_str(r) == after_prefix(s@, prefix@),
{
    let v = chars_of(s);
    let p = chars_of(prefix);
    if p.len() > v.len() {
        return None;
    }
    let mut j: usize = 0;
    while j < p.len()
        invariant
            j <= p.len() <= v.len(),
            v@ == s@,
            p@ == prefix@,
            forall|k: int| 0 <= k < j ==> v@[k] == p@[k],
        decreases p.len() - j,
    {
        if v[j] != p[j] {
            assert(s@.subrange(0, prefix@.len() as int)[j as int] == v@[j as int]);
            return None;
        }
        j += 1;
    }
    assert(s@.subrange(0, prefix@.len() as int) =~= prefix@);
    Some(s.substring_char(p.len(), v.len()))
}

/// The first `n` characters of `s`, or all of it where it is shorter.
pub open spec fn first_chars(s: Seq<char>, n: nat) -> Seq<char> {
    if s.len() <= n {
        s
    } else {
        s.take(n as int)
    }
}

/// The first `n` characters of `s`, or all of it where it is shorter.
pub fn take_chars(s: &str, n: usize) -> (r: &str)
    ensures
        r@ == first_chars(s@, n as nat),
{
    let len = s.unicode_len();
    if len <= n {
        s
    } else {
        s.substring_char(0, n)
    }
}

// ── words ───────────────────────────────────────────────────────────────────

/// How many characters, from `i` on, are not white space.
pub open spec fn run_length(s: Seq<char>, i: int) -> nat
    decreases s.len() - i,
{
    if i >= s.len() || is_white(s[i]) {
        0
    } else {
        1 + run_length(s, i + 1)
    }
}

proof fn lemma_run_length(s: Seq<char>, i: int)
    requires
        i <= s.len(),
    ensures
        i + run_length(s, i) <= s.len(),
    decreases s.len() - i,
{
    if i < s.len() && !is_white(s[i]) {
        lemma_run_length(s, i + 1);
    }
}

/// The words of `s` from `i` on: its longest runs of characters that are not white space.
pub open spec fn words_from(s: Seq<char>, i: int) -> Seq<Seq<char>>
    decreases s.len() - i via words_from_ends
{
    if i >= s.len() {
        Seq::empty()
    } else if is_white(s[i]) {
        words_from(s, i + 1)
    } else {
        let n = run_length(s, i) as int;
        seq![s.subrange(i, i + n)] + words_from(s, i + n)
    }
}

#[via_fn]
proof fn words_from_ends(s: Seq<char>, i: int) {
    if i < s.len() {
        lemma_run_length(s, i);
    }
}

/// The words of `s`.
pub open spec fn words_of(s: Seq<char>) -> Seq<Seq<char>> {
    words_from(s, 0)
}

/// A text has at most as many words as characters.
pub proof fn lemma_words_from(s: Seq<char>, i: int)
    requires
        0 <= i <= s.len(),
    ensures
        words_from(s, i).len() <= s.len() - i,
    decreases s.len() - i,
{
    if i < s.len() {
        if is_white(s[i]) {
            lemma_words_from(s, i + 1);
        } else {
            lemma_run_length(s, i);
            lemma_words_from(s, i + run_length(s, i));
        }
    }
}

/// Splits `s` into its words.
pub fn split_words(s: &str) -> (r: Vec<String>)
    ensures
        texts(r@) == words_of(s@),
{
    let v = chars_of(s);
    let n = v.len();
    let mut out: Vec<String> = Vec::new();
    let mut i: usize = 0;
    assert(texts(out@) + words_from(s@, 0) =~= words_of(s@));
    while i < n
        invariant
            i <= n,
            n == v.len(),
            v@ == s@,
            texts(out@) + words_from(s@, i as int) =~= words_of(s@),
        decreases n - i,
    {
        if white(v[i]) {
            i += 1;
        } else {
            let start = i;
            proof {
                lemma_run_length(s@, start as int);
            }
            i += 1;
            while i < n && !white(v[i])
                invariant
                    start < i <= n,
                    n == v.len(),
                    v@ == s@,
                    run_length(s@, start as int) == (i - start) + run_length(s@, i as int),
                decreases n - i,
            {
                i += 1;
            }
            let ghost before = texts(out@);
            let word = s.substring_char(start, i);
            out.push(owned(word));
            proof {
                assert(run_length(s@, start as int) == i - start);
                assert(texts(out@) =~= before.push(word@));
                assert(before + (seq![word@] + words_from(s@, i as int)) =~= before.push(word@)
                    + words_from(s@, i as int));
            }
        }
    }
    assert(texts(out@) =~= words_of(s@));
    out
}

/// Whether `w` is among the texts.
pub fn has_text(v: &Vec<String>, w: &str) -> (r: bool)
    ensures
        r == texts(v@).contains(w@),
{
    let mut i: usize = 0;
    while i < v.len()
        invariant
            i <= v.len(),
            forall|k: int| 0 <= k < i ==> texts(v@)[k] != w@,
        decreases v.len() - i,
    {
        if same(v[i].as_str(), w) {
            assert(texts(v@)[i as int] == w@);
            return true;
        }
        i += 1;
    }
    false
}

/// The distinct texts of a list.
pub fn distinct(v: &Vec<String>) -> (r: Vec<String>)
    ensures
        texts(r@).no_duplicates(),
        texts(r@).to_set() =~= texts(v@).to_set(),
{
    let mut out: Vec<String> = Vec::new();
    let ghost all = texts(v@);
    let mut i: usize = 0;
    while i < v.len()
        invariant
            i <= v.len(),
            all == texts(v@),
            texts(out@).no_duplicates(),
            texts(out@).to_set() =~= all.take(i as int).to_set(),
        decreases v.len() - i,
    {
        let ghost before = texts(out@);
        let ghost w = v@[i as int]@;
        let ghost seen = all.take(i as int);
        let ghost next = all.take(i + 1);
        assert(next =~= seen.push(w));
        assert(forall|x: Seq<char>| before.contains(x) <==> before.to_set().contains(x));
        assert(forall|x: Seq<char>| seen.contains(x) <==> seen.to_set().contains(x));
        assert forall|x: Seq<char>| next.contains(x) <==> (seen.contains(x) || x == w) by {
            if seen.contains(x) {
                let k = choose|k: int| 0 <= k < seen.len() && seen[k] == x;
                assert(next[k] == x);
            }
            assert(next[i as int] == w);
        }
        if !has_text(&out, v[i].as_str()) {
            out.push(owned(v[i].as_str()));
            assert(texts(out@) =~= before.push(w));
            assert forall|x: Seq<char>| texts(out@).contains(x) <==> (before.contains(x) || x
                == w) by {
                if before.contains(x) {
                    let k = choose|k: int| 0 <= k < before.len() && before[k] == x;
                    assert(texts(out@)[k] == x);
                }
                assert(texts(out@)[before.len() as int] == w);
            }
        }
        assert(texts(out@).to_set() =~= next.to_set());
        i += 1;
    }
    assert(all.take(all.len() as int) =~= all);
    out
}

// ── building ────────────────────────────────────────────────────────────────

/// `a` followed by `b`.
pub fn cat2(a: &str, b: &str) -> (r: String)
    ensures
        r@ == a@ + b@,
{
    let mut s = String::from_str(a);
    s.append(b);
    s
}

/// `a`, `b` and `c` in a row.
pub fn cat3(a: &str, b: &str, c: &str) -> (r: String)
    ensures
        r@ == a@ + b@ + c@,
{
    let mut s = cat2(a, b);
    s.append(c);
    s
}

/// Four strings in a row.
pub fn cat4(a: &str, b: &str, c: &str, d: &str) -> (r: String)
    ensures
        r@ == a@ + b@ + c@ + d@,
{
    let mut s = cat3(a, b, c);
    s.append(d);
    s
}

/// Five strings in a row.
pub fn cat5(a: &str, b: &str, c: &str, d: &str, e: &str) -> (r: String)
    ensures
        r@ == a@ + b@ + c@ + d@ + e@,
{
    let mut s = cat4(a, b, c, d);
    s.append(e);
    s
}

/// The parts in order, with `sep` between neighbours.
pub open spec fn joined(parts: Seq<Seq<char>>, sep: Seq<char>) -> Seq<char>
    decreases parts.len(),
{
    if parts.len() == 0 {
        Seq::empty()
    } else if parts.len() == 1 {
        parts[0]
    } else {
        joined(parts.drop_last(), sep) + sep + parts.last()
    }
}

/// The parts in order, with `sep` between neighbours.
pub fn join(parts: &Vec<String>, sep: &str) -> (r: String)
    ensures
        r@ == joined(texts(parts@), sep@),
{
    let mut out = String::new();
    let mut i: usize = 0;
    let ghost all = texts(parts@);
    assert(all.take(0) =~= Seq::<Seq<char>>::empty());
    while i < parts.len()
        invariant
            i <= parts.len(),
            all == texts(parts@),
            out@ == joined(all.take(i as int), sep@),
        decreases parts.len() - i,
    {
        proof {
            let next = all.take(i + 1);
            assert(next.drop_last() =~= all.take(i as int));
            assert(next.last() == parts@[i as int]@);
            if i == 0 {
                assert(out@ + parts@[0]@ =~= parts@[0]@);
            }
        }
        if i > 0 {
            out.append(sep);
        }
        out.append(parts[i].as_str());
        i += 1;
    }
    assert(all.take(parts@.len() as int) =~= all);
    out
}

// ── decimal numbers ─────────────────────────────────────────────────────────

/// The decimal digit for `d`.
pub open spec fn digit(d: int) -> char {
    (48 + d) as char
}

/// `n` in decimal, without leading zeros.
pub open spec fn dec_nat(n: nat) -> Seq<char>
    decreases n,
{
    if n < 10 {
        seq![digit(n as int)]
    } else {
        dec_nat(n / 10).push(digit((n % 10) as int))
    }
}

/// `n` in decimal, with a minus sign where it is negative.
pub open spec fn dec(n: int) -> Seq<char> {
    if n < 0 {
        "-"@ + dec_nat((-n) as nat)
    } else {
        dec_nat(n as nat)
    }
}

/// `n` in decimal, padded with a zero to two characters.
pub open spec fn dec2(n: int) -> Seq<char> {
    if 0 <= n < 10 {
        "0"@ + dec_nat(n as nat)
    } else {
        dec(n)
    }
}

fn digit_text(d: u128) -> (r: &'static str)
    requires
        d < 10,
    ensures
        r@ == seq![digit(d as int)],
{
    proof {
        reveal_strlit("0");
        reveal_strlit("1");
        reveal_strlit("2");
        reveal_strlit("3");
        reveal_strlit("4");
        reveal_strlit("5");
        reveal_strlit("6");
        reveal_strlit("7");
        reveal_strlit("8");
        reveal_strlit("9");
    }
    let r = if d == 0 {
        "0"
    } else if d == 1 {
        "1"
    } else if d == 2 {
        "2"
    } else if d == 3 {
        "3"
    } else if d == 4 {
        "4"
    } else if d == 5 {
        "5"
    } else if d == 6 {
        "6"
    } else if d == 7 {
        "7"
    } else if d == 8 {
        "8"
    } else {
        "9"
    };
    assert(r@ =~= seq![digit(d as int)]);
    r
}

/// `n` in decimal.
pub fn fmt_nat(n: u128) -> (r: String)
    ensures
        r@ == dec_nat(n as nat),
    decreases n,
{
    if n < 10 {
        owned(digit_text(n))
    } else {
        let mut s = fmt_nat(n / 10);
        let ghost front = s@;
        s.append(digit_text(n % 10));
        assert(s@ =~= front.push(digit((n % 10) as int)));
        s
    }
}

/// `n` in decimal, with a minus sign where it is negative.
pub fn fmt_int(n: i128) -> (r: String)
    ensures
        r@ == dec(n as int),
{
    if n < 0 {
        let m: u128 = (-(n + 1)) as u128 + 1;
        let d = fmt_nat(m);
        cat2("-", d.as_str())
    } else {
        fmt_nat(n as u128)
    }
}

/// `n` in decimal, padded with a zero to two characters.
pub fn fmt_int2(n: i128) -> (r: String)
    ensures
        r@ == dec2(n as int),
{
    if 0 <= n && n < 10 {
        let d = fmt_nat(n as u128);
        cat2("0", d.as_str())
    } else {
        fmt_int(n)
    }
}

/// Whether `s` is one or more decimal digits.
pub open spec fn all_digits(s: Seq<char>) -> bool {
    s.len() > 0 && forall|i: int| 0 <= i < s.len() ==> 48 <= (#[trigger] s[i]) as u32 <= 57
}

/// The number that a run of decimal digits stands for.
pub open spec fn digits_value(s: Seq<char>) -> int
    decreases s.len(),
{
    if s.len() == 0 {
        0
    } else {
        digits_value(s.drop_last()) * 10 + (s.last() as u32 as int - 48)
    }
}

/// A decimal integer: an optional sign, then one or more digits.
pub open spec fn parse_int(s: Seq<char>) -> Option<int> {
    let rest = s.subrange(1, s.len() as int);
    if s.len() > 0 && s[0] == '-' {
        if all_digits(rest) {
            Some(-digits_value(rest))
        } else {
            None
        }
    } else if s.len() > 0 && s[0] == '+' {
        if all_digits(rest) {
            Some(digits_value(rest))
        } else {
            None
        }
    } else if all_digits(s) {
        Some(digits_value(s))
    } else {
        None
    }
}

/// A decimal integer that fits in 64 signed bits.
pub open spec fn parse_int64(s: Seq<char>) -> Option<int> {
    match parse_int(s) {
        Some(n) => if i64::MIN <= n <= i64::MAX {
            Some(n)
        } else {
            None
        },
        None => None,
    }
}

proof fn lemma_digits_value_grows(s: Seq<char>, k: int)
    requires
        0 <= k <= s.len(),
        forall|i: int| 0 <= i < s.len() ==> 48 <= (#[trigger] s[i]) as u32 <= 57,
    ensures
        0 <= digits_value(s.take(k)) <= digits_value(s),
    decreases s.len(),
{
    if s.len() == 0 {
        assert(s.take(k) =~= s);
    } else if k == s.len() {
        assert(s.take(k) =~= s);
        lemma_digits_value_grows(s.drop_last(), k - 1);
    } else {
        assert(s.drop_last().take(k) =~= s.take(k));
        lemma_digits_value_grows(s.drop_last(), k);
    }
}

/// Reads `s` as [`parse_int64`] does.
pub fn read_int64(s: &str) -> (r: Option<i64>)
    ensures
        match r {
            Some(n) => parse_int64(s@) == Some(n as int),
            None => parse_int64(s@) is None,
        },
{
    let v = chars_of(s);
    let n = v.len();
    let negative = n > 0 && v[0] == '-';
    let signed = negative || (n > 0 && v[0] == '+');
    let start: usize = if signed { 1 } else { 0 };
    let ghost body = s@.subrange(start as int, n as int);
    assert(!signed ==> body =~= s@);
    if start >= n {
        assert(body.len() == 0);
        return None;
    }
    let mut acc: i128 = 0;
    let mut i: usize = start;
    assert(body.take(0) =~= Seq::<char>::empty());
    while i < n
        invariant
            start <= i <= n,
            n == v.len(),
            v@ == s@,
            body == s@.subrange(start as int, n as int),
            body.len() > 0,
            negative == (s@[0] == '-'),
            signed == (s@[0] == '-' || s@[0] == '+'),
            start == (if signed { 1int } else { 0int }),
            !signed ==> body == s@,
            forall|k: int| 0 <= k < i - start ==> 48 <= (#[trigger] body[k]) as u32 <= 57,
            acc == digits_value(body.take(i - start)),
            0 <= acc <= 0x8000_0000_0000_0000,
        decreases n - i,
    {
        let c: u32 = v[i] as u32;
        assert(body[i - start] == v@[i as int]);
        if c < 48 || c > 57 {
            assert(!all_digits(body));
            return None;
        }
        let ghost next = body.take(i - start + 1);
        assert(next.drop_last() =~= body.take(i - start));
        assert(next.last() == v@[i as int]);
        acc = acc * 10 + (c as i128 - 48);
        if acc > 0x8000_0000_0000_0000 {
            proof {
                if all_digits(body) {
                    lemma_digits_value_grows(body, i - start + 1);
                }
            }
            return None;
        }
        i += 1;
    }
    assert(body.take(n - start) =~= body);
    assert(all_digits(body));
    if negative {
        Some((-acc) as i64)
    } else if acc <= 0x7fff_ffff_ffff_ffff {
        Some(acc as i64)
    } else {
        None
    }
}

// ── lowercase ───────────────────────────────────────────────────────────────

/// The lowercase form of a text, by Unicode's mapping.
pub uninterp spec fn lowercase(s: Seq<char>) -> Seq<char>;

/// `c` with the letters `A` to `Z` mapped to `a` to `z`.
pub open spec fn ascii_lower_char(c: char) -> char {
    if 65 <= c as u32 <= 90 {
        ((c as u32) + 32) as char
    } else {
        c
    }
}

/// Whether every character is ASCII.
pub open spec fn ascii_only(s: Seq<char>) -> bool {
    forall|i: int| 0 <= i < s.len() ==> (#[trigger] s[i]) as u32 <= 127
}

/// Calls `str::to_lowercase`. Unicode's mapping is taken by name; of a text that is all ASCII the
/// contract also claims what the mapping does there: `A` to `Z` become `a` to `z` and every other
/// character stays.
#[verifier::external_body]
pub(crate) fn to_lower(s: &str) -> (r: String)
    ensures
        r@ == lowercase(s@),
        ascii_only(s@) ==> r@ == s@.map_values(|c: char| ascii_lower_char(c)),
{
    s.to_lowercase()
}

// ── bytes ───────────────────────────────────────────────────────────────────

/// The text that some bytes hold as UTF-8, with replacement characters where they hold none.
pub uninterp spec fn lossy(bytes: Seq<u8>) -> Seq<char>;

/// Calls `String::from_utf8_lossy`. The contract takes the text by name; of bytes that are valid
/// UTF-8 it also claims what the text is.
#[verifier::external_body]
pub(crate) fn lossy_text(bytes: &[u8]) -> (r: String)
    ensures
        r@ == lossy(bytes@),
        vstd::utf8::valid_utf8(bytes@) ==> r@ == vstd::utf8::decode_utf8(bytes@),
{
    String::from_utf8_lossy(bytes).into_owned()
}

} // verus!
