//! Ranking by keys: highest first, and among equals the earlier first.
use vstd::prelude::*;

verus! {

/// Whether one key ranks strictly above another: by its first part, then by its second.
pub open spec fn beats(a: (int, int), b: (int, int)) -> bool {
    a.0 > b.0 || (a.0 == b.0 && a.1 > b.1)
}

/// The place of entry `i` in a ranking: right before the first entry that it beats.
pub open spec fn place(keys: Seq<(int, int)>, ranks: Seq<int>, i: int, from: int) -> int
    decreases ranks.len() - from,
{
    if from >= ranks.len() {
        ranks.len() as int
    } else if beats(keys[i], keys[ranks[from]]) {
        from
    } else {
        place(keys, ranks, i, from + 1)
    }
}

/// The ranking of the first `n` entries, as their indices from the first to the last.
pub open spec fn ranking(keys: Seq<(int, int)>, n: int) -> Seq<int>
    decreases n,
{
    if n <= 0 {
        Seq::empty()
    } else {
        let front = ranking(keys, n - 1);
        front.insert(place(keys, front, n - 1, 0), n - 1)
    }
}

/// Whether entry `i` ranks before entry `j`: it beats it, or neither beats the other and it comes
/// first.
pub open spec fn ranks_before(keys: Seq<(int, int)>, i: int, j: int) -> bool {
    beats(keys[i], keys[j]) || (!beats(keys[j], keys[i]) && i < j)
}

proof fn lemma_place(keys: Seq<(int, int)>, ranks: Seq<int>, i: int, from: int)
    requires
        0 <= from <= ranks.len(),
    ensures
        ({
            let k = place(keys, ranks, i, from);
            &&& from <= k <= ranks.len()
            &&& forall|m: int| from <= m < k ==> !beats(keys[i], keys[#[trigger] ranks[m]])
            &&& k < ranks.len() ==> beats(keys[i], keys[ranks[k]])
        }),
    decreases ranks.len() - from,
{
    if from < ranks.len() && !beats(keys[i], keys[ranks[from]]) {
        lemma_place(keys, ranks, i, from + 1);
    }
}

/// A ranking lists every index exactly once, and each entry ranks before all that follow it.
pub proof fn ranking_is_ordered(keys: Seq<(int, int)>, n: int)
    requires
        0 <= n <= keys.len(),
    ensures
        ranking(keys, n).len() == n,
        forall|k: int| 0 <= k < n ==> 0 <= #[trigger] ranking(keys, n)[k] < n,
        forall|i: int| 0 <= i < n ==> #[trigger] ranking(keys, n).contains(i),
        forall|k: int, l: int|
            0 <= k < l < n ==> ranks_before(
                keys,
                #[trigger] ranking(keys, n)[k],
                #[trigger] ranking(keys, n)[l],
            ),
    decreases n,
{
    if n > 0 {
        let front = ranking(keys, n - 1);
        ranking_is_ordered(keys, n - 1);
        lemma_place(keys, front, n - 1, 0);
        let at = place(keys, front, n - 1, 0);
        let all = front.insert(at, n - 1);
        assert(all == ranking(keys, n));
        assert forall|k: int| 0 <= k < n implies 0 <= #[trigger] all[k] < n by {
            if k < at {
                assert(all[k] == front[k]);
            } else if k > at {
                assert(all[k] == front[k - 1]);
            }
        }
        assert forall|i: int| 0 <= i < n implies #[trigger] all.contains(i) by {
            if i == n - 1 {
                assert(all[at] == i);
            } else {
                assert(front.contains(i));
                let k = choose|k: int| 0 <= k < front.len() && front[k] == i;
                if k < at {
                    assert(all[k] == i);
                } else {
                    assert(all[k + 1] == i);
                }
            }
        }
        assert forall|k: int, l: int| 0 <= k < l < n implies ranks_before(
            keys,
            #[trigger] all[k],
            #[trigger] all[l],
        ) by {
            if k < at && l < at {
                assert(all[k] == front[k] && all[l] == front[l]);
            } else if k < at && l == at {
                assert(all[k] == front[k]);
                assert(!beats(keys[n - 1], keys[front[k]]));
            } else if k < at {
                assert(all[k] == front[k] && all[l] == front[l - 1]);
            } else if k == at {
                assert(all[l] == front[l - 1]);
                assert(beats(keys[n - 1], keys[front[at]]));
                if l - 1 > at {
                    assert(ranks_before(keys, front[at], front[l - 1]));
                }
            } else {
                assert(all[k] == front[k - 1] && all[l] == front[l - 1]);
            }
        }
    }
}

/// The content of a list of keys.
pub open spec fn keys_view(keys: Seq<(i128, i128)>) -> Seq<(int, int)> {
    keys.map_values(|k: (i128, i128)| (k.0 as int, k.1 as int))
}

/// The content of a list of indices.
pub open spec fn indices_view(v: Seq<usize>) -> Seq<int> {
    v.map_values(|i: usize| i as int)
}

/// Ranks the entries with these keys, as [`ranking`] says.
pub fn rank_indices(keys: &Vec<(i128, i128)>) -> (r: Vec<usize>)
    ensures
        indices_view(r@) == ranking(keys_view(keys@), keys@.len() as int),
        r.len() == keys.len(),
        forall|k: int| 0 <= k < r.len() ==> r@[k] < keys.len(),
{
    let ghost view = keys_view(keys@);
    let mut out: Vec<usize> = Vec::new();
    let mut n: usize = 0;
    assert(indices_view(out@) =~= ranking(view, 0));
    while n < keys.len()
        invariant
            n <= keys.len(),
            view == keys_view(keys@),
            indices_view(out@) == ranking(view, n as int),
            out.len() == n,
            forall|k: int| 0 <= k < n ==> out@[k] < n,
        decreases keys.len() - n,
    {
        let ghost front = indices_view(out@);
        let mut at: usize = 0;
        while at < out.len() && !(keys[n].0 > keys[out[at]].0 || (keys[n].0 == keys[out[at]].0
            && keys[n].1 > keys[out[at]].1))
            invariant
                at <= out.len(),
                n < keys.len(),
                view == keys_view(keys@),
                front == indices_view(out@),
                forall|k: int| 0 <= k < out.len() ==> out@[k] < n,
                place(view, front, n as int, 0) == place(view, front, n as int, at as int),
            decreases out.len() - at,
        {
            assert(front[at as int] == out@[at as int]);
            assert(view[n as int] == (keys@[n as int].0 as int, keys@[n as int].1 as int));
            at += 1;
        }
        proof {
            if at < out.len() {
                assert(front[at as int] == out@[at as int]);
                assert(beats(view[n as int], view[front[at as int]]));
            }
            assert(place(view, front, n as int, 0) == at);
        }
        out.insert(at, n);
        assert(indices_view(out@) =~= front.insert(at as int, n as int));
        n += 1;
    }
    out
}

} // verus!
