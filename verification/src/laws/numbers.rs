//! What reading a number as a whole one, and ranking by keys, come to.
use vstd::arithmetic::div_mod::*;
use vstd::arithmetic::mul::*;
use vstd::arithmetic::power2::*;
use vstd::prelude::*;

use crate::media::recommend::{best_of, RecommendationView};
use crate::number::{
    exponent, is_finite, is_whole, rounded, rounded_magnitude, scaled, sign_bit, significand, whole,
};
use crate::order::{beats, place, ranking};

verus! {

/// One, in the units that every number is a multiple of.
pub open spec fn unit() -> int {
    pow2(1074) as int
}

/// A number that is read as a whole one has that value; a number with a fraction, or beyond 64 bits,
/// is not read as one.
pub proof fn whole_numbers_have_their_value(bits: u64, n: int)
    requires
        is_finite(bits),
    ensures
        whole(bits) == Some(n) ==> i64::MIN <= n <= i64::MAX && scaled(bits) == (if n < 0 {
            -n
        } else {
            n
        }) * unit() && (n < 0 ==> sign_bit(bits)) && (n > 0 ==> !sign_bit(bits)),
        scaled(bits) % unit() != 0 ==> whole(bits) is None,
{
    lemma_magnitudes(bits);
    lemma_pow2_pos(1074);
    if whole(bits) == Some(n) {
        assert(rounded_magnitude(bits) >= 0);
    }
}

/// A number that is rounded is off by at most one half, and by exactly one half only away from zero.
pub proof fn rounding_is_to_the_nearest(bits: u64, n: int)
    requires
        is_finite(bits),
        rounded(bits) == Some(n),
    ensures
        i64::MIN <= n <= i64::MAX,
        ({
            let m = if n < 0 {
                -n
            } else {
                n
            };
            &&& 2 * scaled(bits) < (2 * m + 1) * unit()
            &&& 2 * scaled(bits) >= (2 * m - 1) * unit()
        }),
        n < 0 ==> sign_bit(bits),
        n > 0 ==> !sign_bit(bits),
{
    lemma_magnitudes(bits);
    assert(rounded_magnitude(bits) >= 0);
}

/// The magnitude of a number, in units, and what it rounds to.
proof fn lemma_magnitudes(bits: u64)
    requires
        is_finite(bits),
    ensures
        rounded_magnitude(bits) >= 0,
        2 * scaled(bits) < (2 * rounded_magnitude(bits) + 1) * unit(),
        2 * scaled(bits) >= (2 * rounded_magnitude(bits) - 1) * unit(),
        is_whole(bits) ==> scaled(bits) == rounded_magnitude(bits) * unit(),
        is_whole(bits) <==> scaled(bits) % unit() == 0,
        crate::number::in_int64_span(bits) ==> rounded_magnitude(bits) <= 0x8000_0000_0000_0000 && (
        rounded_magnitude(bits) == 0x8000_0000_0000_0000 ==> sign_bit(bits)),
{
    let m = significand(bits);
    let e = exponent(bits);
    assert(0 <= m < 0x20_0000_0000_0000);
    assert(-1074 <= e);
    lemma_pow2_pos(1074);
    if e >= 0 {
        let p = pow2(e as nat) as int;
        lemma_pow2_pos(e as nat);
        lemma_pow2_adds(e as nat, 1074);
        assert(scaled(bits) == m * (p * unit()));
        assert(m * (p * unit()) == (m * p) * unit()) by (nonlinear_arith);
        let r = m * p;
        assert(r >= 0) by (nonlinear_arith)
            requires
                m >= 0,
                p > 0,
                r == m * p,
        ;
        assert(2 * (r * unit()) < (2 * r + 1) * unit() && 2 * (r * unit()) >= (2 * r - 1) * unit())
            by (nonlinear_arith)
            requires
                unit() > 0,
        ;
        lemma_mod_multiples_basic(r, unit());
    } else {
        let k = (-e) as nat;
        let u = pow2(k) as int;
        let rest = pow2((1074 - k) as nat) as int;
        lemma_pow2_pos(k);
        lemma_pow2_pos((1074 - k) as nat);
        lemma_pow2_adds(k, (1074 - k) as nat);
        assert(unit() == u * rest);
        assert(scaled(bits) == m * rest);
        let r = (2 * m + u) / (2 * u);
        lemma_fundamental_div_mod(2 * m + u, 2 * u);
        let left = (2 * m + u) % (2 * u);
        assert(2 * m + u == (2 * u) * r + left);
        assert(0 <= left < 2 * u);
        assert(r >= 0) by {
            lemma_div_pos_is_pos(2 * m + u, 2 * u);
        }
        assert(2 * m < (2 * r + 1) * u) by (nonlinear_arith)
            requires
                2 * m + u == (2 * u) * r + left,
                left < 2 * u,
        ;
        assert(2 * m >= (2 * r - 1) * u) by (nonlinear_arith)
            requires
                2 * m + u == (2 * u) * r + left,
                left >= 0,
        ;
        assert(2 * (m * rest) < (2 * r + 1) * (u * rest)) by (nonlinear_arith)
            requires
                2 * m < (2 * r + 1) * u,
                rest > 0,
        ;
        assert(2 * (m * rest) >= (2 * r - 1) * (u * rest)) by (nonlinear_arith)
            requires
                2 * m >= (2 * r - 1) * u,
                rest > 0,
        ;
        lemma_fundamental_div_mod(m, u);
        let q = m / u;
        if m % u == 0 {
            assert(m == u * q);
            assert(q == r) by (nonlinear_arith)
                requires
                    m == u * q,
                    2 * m < (2 * r + 1) * u,
                    2 * m >= (2 * r - 1) * u,
                    u > 0,
                    2 * m + u == (2 * u) * r + left,
                    0 <= left < 2 * u,
            ;
            assert(m * rest == q * (u * rest)) by (nonlinear_arith)
                requires
                    m == u * q,
            ;
            lemma_mod_multiples_basic(q, u * rest);
        }
        if scaled(bits) % unit() == 0 {
            lemma_fundamental_div_mod(m * rest, u * rest);
            let w = (m * rest) / (u * rest);
            assert(m == w * u) by (nonlinear_arith)
                requires
                    m * rest == (u * rest) * w,
                    rest > 0,
            ;
            lemma_mod_multiples_basic(w, u);
        }
        assert(r <= 0x20_0000_0000_0000) by (nonlinear_arith)
            requires
                2 * m >= (2 * r - 1) * u,
                m < 0x20_0000_0000_0000,
                u >= 1,
                r >= 0,
        ;
    }
}

// ── ranking ─────────────────────────────────────────────────────────────────

/// Where no key beats another, a ranking keeps the order in which things came.
pub proof fn equals_keep_their_order(keys: Seq<(int, int)>, n: int)
    requires
        0 <= n <= keys.len(),
        forall|i: int, j: int| 0 <= i < n && 0 <= j < n ==> !beats(#[trigger] keys[i], #[trigger] keys[j]),
    ensures
        ranking(keys, n) == Seq::new(n as nat, |i: int| i),
    decreases n,
{
    if n > 0 {
        equals_keep_their_order(keys, n - 1);
        let front = ranking(keys, n - 1);
        lemma_last_place(keys, front, n - 1, 0);
        assert(ranking(keys, n) =~= Seq::new(n as nat, |i: int| i));
    } else {
        assert(ranking(keys, n) =~= Seq::new(0, |i: int| i));
    }
}

proof fn lemma_last_place(keys: Seq<(int, int)>, ranks: Seq<int>, i: int, from: int)
    requires
        0 <= from <= ranks.len(),
        0 <= i < keys.len(),
        forall|k: int|
            0 <= k < ranks.len() ==> 0 <= #[trigger] ranks[k] <= i && !beats(
                keys[i],
                keys[ranks[k]],
            ),
    ensures
        place(keys, ranks, i, from) == ranks.len(),
    decreases ranks.len() - from,
{
    if from < ranks.len() {
        assert(!beats(keys[i], keys[ranks[from]]));
        lemma_last_place(keys, ranks, i, from + 1);
    }
}

/// Recommendations with one score keep the order of the library.
pub proof fn equal_recommendations_keep_their_order(v: Seq<RecommendationView>, limit: int)
    requires
        limit >= 0,
        forall|i: int, j: int|
            0 <= i < v.len() && 0 <= j < v.len() ==> (#[trigger] v[i]).score == (#[trigger] v[j]).score,
    ensures
        best_of(v, limit) == if v.len() <= limit {
            v
        } else {
            v.take(limit)
        },
{
    let keys = crate::media::recommend::recommendation_keys(v);
    let n = v.len() as int;
    assert forall|i: int, j: int| 0 <= i < n && 0 <= j < n implies !beats(
        #[trigger] keys[i],
        #[trigger] keys[j],
    ) by {
        assert(v[i].score == v[j].score);
    }
    equals_keep_their_order(keys, n);
    assert(ranking(keys, n).map_values(|i: int| v[i]) =~= v);
}

} // verus!
