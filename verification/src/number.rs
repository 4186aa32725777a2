//! Whole numbers read out of IEEE 754 binary64 bit patterns.
//!
//! A floating-point number reaches this crate as its 64 bits. Everything decided about one (is it
//! whole, does it fit, what does it round to) is integer arithmetic on its sign, significand and
//! exponent.
use vstd::arithmetic::div_mod::*;
use vstd::arithmetic::mul::*;
use vstd::arithmetic::power2::*;
use vstd::prelude::*;

verus! {

/// The biased exponent field.
pub open spec fn exponent_field(bits: u64) -> int {
    (bits as int / 0x10_0000_0000_0000) % 0x800
}

/// The fraction field.
pub open spec fn fraction_field(bits: u64) -> int {
    bits as int % 0x10_0000_0000_0000
}

/// Whether the sign bit is set.
pub open spec fn sign_bit(bits: u64) -> bool {
    bits >= 0x8000_0000_0000_0000
}

/// Whether the bits stand for a number, neither infinite nor NaN.
pub open spec fn is_finite(bits: u64) -> bool {
    exponent_field(bits) != 0x7ff
}

/// The significand `m` of a finite number, whose magnitude is `m * 2^e`.
pub open spec fn significand(bits: u64) -> int {
    if exponent_field(bits) == 0 {
        fraction_field(bits)
    } else {
        0x10_0000_0000_0000 + fraction_field(bits)
    }
}

/// The exponent `e` of a finite number, whose magnitude is `m * 2^e`.
pub open spec fn exponent(bits: u64) -> int {
    if exponent_field(bits) == 0 {
        -1074
    } else {
        exponent_field(bits) - 1075
    }
}

/// Whether a finite number is whole.
pub open spec fn is_whole(bits: u64) -> bool {
    exponent(bits) >= 0 || significand(bits) % (pow2((-exponent(bits)) as nat) as int) == 0
}

/// The magnitude of a finite number rounded to the nearest whole number, halves away from zero.
pub open spec fn rounded_magnitude(bits: u64) -> int {
    if exponent(bits) >= 0 {
        significand(bits) * (pow2(exponent(bits) as nat) as int)
    } else {
        let unit = pow2((-exponent(bits)) as nat) as int;
        (2 * significand(bits) + unit) / (2 * unit)
    }
}

/// Whether a finite number is at least -2^63 and below 2^63.
pub open spec fn in_int64_span(bits: u64) -> bool {
    exponent(bits) >= 0 ==> {
        let m = significand(bits) * (pow2(exponent(bits) as nat) as int);
        m < 0x8000_0000_0000_0000 || (sign_bit(bits) && m == 0x8000_0000_0000_0000)
    }
}

/// A magnitude with its sign.
pub open spec fn signed_magnitude(negative: bool, magnitude: int) -> int {
    if negative {
        -magnitude
    } else {
        magnitude
    }
}

/// The 64-bit integer nearest to a number, halves away from zero, where it is finite and in range.
pub open spec fn rounded(bits: u64) -> Option<int> {
    if is_finite(bits) && in_int64_span(bits) {
        Some(signed_magnitude(sign_bit(bits), rounded_magnitude(bits)))
    } else {
        None
    }
}

/// The 64-bit integer that a number is, where it is finite, in range and has no fraction.
pub open spec fn whole(bits: u64) -> Option<int> {
    if is_finite(bits) && is_whole(bits) {
        rounded(bits)
    } else {
        None
    }
}

fn power_of_two(k: u32) -> (r: u64)
    requires
        k <= 60,
    ensures
        r == pow2(k as nat),
{
    proof {
        lemma2_to64();
    }
    let mut r: u64 = 1;
    let mut i: u32 = 0;
    while i < k
        invariant
            i <= k <= 60,
            r == pow2(i as nat),
            r <= 0x1000_0000_0000_0000,
        decreases k - i,
    {
        proof {
            lemma_pow2_unfold((i + 1) as nat);
            lemma2_to64_rest();
            if i + 1 < 60 {
                lemma_pow2_strictly_increases((i + 1) as nat, 60);
            }
        }
        r = r * 2;
        i += 1;
    }
    r
}

/// The parts of a finite number that rounding looks at: whether it is whole, and its rounded
/// magnitude where it lies within the 64-bit span.
fn magnitude(bits: u64) -> (r: Option<(bool, u64)>)
    ensures
        match r {
            Some((whole_number, m)) => {
                &&& is_finite(bits)
                &&& in_int64_span(bits)
                &&& whole_number == is_whole(bits)
                &&& m == rounded_magnitude(bits)
                &&& m < 0x8000_0000_0000_0000 || (sign_bit(bits) && m == 0x8000_0000_0000_0000)
            },
            None => !(is_finite(bits) && in_int64_span(bits)),
        },
{
    let field: u64 = (bits / 0x10_0000_0000_0000) % 0x800;
    let fraction: u64 = bits % 0x10_0000_0000_0000;
    if field == 0x7ff {
        return None;
    }
    let m: u64 = if field == 0 {
        fraction
    } else {
        0x10_0000_0000_0000 + fraction
    };
    let e: i64 = if field == 0 {
        -1074
    } else {
        field as i64 - 1075
    };
    assert(m == significand(bits));
    assert(e == exponent(bits));
    assert(m < 0x20_0000_0000_0000);
    if e >= 0 {
        assert(m >= 0x10_0000_0000_0000);
        if e > 11 {
            proof {
                lemma2_to64();
                if e > 12 {
                    lemma_pow2_strictly_increases(12, e as nat);
                }
                lemma_mul_inequality(0x10_0000_0000_0000, m as int, pow2(e as nat) as int);
                lemma_mul_inequality(0x1000, pow2(e as nat) as int, 0x10_0000_0000_0000);
                lemma_mul_is_commutative(0x1000, 0x10_0000_0000_0000);
                lemma_mul_is_commutative(pow2(e as nat) as int, 0x10_0000_0000_0000);
            }
            return None;
        }
        let unit = power_of_two(e as u32);
        proof {
            lemma2_to64();
            if e < 11 {
                lemma_pow2_strictly_increases(e as nat, 11);
            }
            lemma_mul_nonnegative(m as int, unit as int);
            lemma_mul_upper_bound(m as int, 0x20_0000_0000_0000, unit as int, 0x800);
        }
        let product: u128 = (m as u128) * (unit as u128);
        if product > 0x8000_0000_0000_0000 || (product == 0x8000_0000_0000_0000 && bits
            < 0x8000_0000_0000_0000) {
            return None;
        }
        return Some((true, product as u64));
    }
    let k: u64 = (-e) as u64;
    if k > 53 {
        proof {
            lemma2_to64_rest();
            lemma_pow2_strictly_increases(53, k as nat);
            lemma_pow2_unfold(k as nat);
            if k > 54 {
                lemma_pow2_strictly_increases(53, (k - 1) as nat);
            }
            let unit = pow2(k as nat) as int;
            assert(2 * m < unit);
            lemma_small_mod(m as nat, unit as nat);
            lemma_basic_div(2 * m + unit, 2 * unit);
        }
        return Some((m == 0, 0));
    }
    let unit = power_of_two(k as u32);
    proof {
        lemma2_to64_rest();
        if k < 53 {
            lemma_pow2_strictly_increases(k as nat, 53);
        }
        lemma_pow2_pos(k as nat);
        lemma_div_is_ordered_by_denominator(2 * m + unit, 1, 2 * unit);
        lemma_div_basics(2 * m + unit);
    }
    Some((m % unit == 0, (2 * m + unit) / (2 * unit)))
}

fn with_sign(bits: u64, m: u64) -> (r: i64)
    requires
        m < 0x8000_0000_0000_0000 || (sign_bit(bits) && m == 0x8000_0000_0000_0000),
    ensures
        r == signed_magnitude(sign_bit(bits), m as int),
{
    if bits >= 0x8000_0000_0000_0000 {
        (-(m as i128)) as i64
    } else {
        m as i64
    }
}

/// The 64-bit integer that a number is, where it is finite, in range and has no fraction.
pub fn whole_number(bits: u64) -> (r: Option<i64>)
    ensures
        match r {
            Some(n) => whole(bits) == Some(n as int),
            None => whole(bits) is None,
        },
{
    match magnitude(bits) {
        Some((true, m)) => Some(with_sign(bits, m)),
        _ => None,
    }
}

/// The 64-bit integer nearest to a number, halves away from zero, where it is finite and in range.
pub fn nearest_number(bits: u64) -> (r: Option<i64>)
    ensures
        match r {
            Some(n) => rounded(bits) == Some(n as int),
            None => rounded(bits) is None,
        },
{
    match magnitude(bits) {
        Some((_, m)) => Some(with_sign(bits, m)),
        None => None,
    }
}

/// Where a number stands in the order of numbers: a larger number has a larger rank, and the two
/// zeros have the same.
pub open spec fn rank_of(bits: u64) -> int {
    if sign_bit(bits) {
        -(bits as int - 0x8000_0000_0000_0000)
    } else {
        bits as int
    }
}

/// Where a number stands in the order of numbers, as [`rank_of`] says.
pub fn float_rank(bits: u64) -> (r: i128)
    ensures
        r == rank_of(bits),
        i64::MIN <= r <= i64::MAX,
{
    if bits >= 0x8000_0000_0000_0000 {
        -(bits as i128 - 0x8000_0000_0000_0000)
    } else {
        bits as i128
    }
}

proof fn lemma_fields(bits: u64)
    requires
        !sign_bit(bits),
    ensures
        bits as int == exponent_field(bits) * 0x10_0000_0000_0000 + fraction_field(bits),
        0 <= exponent_field(bits) < 0x800,
        0 <= fraction_field(bits) < 0x10_0000_0000_0000,
{
}

/// The magnitude of a finite number as a multiple of 2^-1074, of which every one is a multiple.
pub open spec fn scaled(bits: u64) -> int {
    significand(bits) * (pow2((exponent(bits) + 1074) as nat) as int)
}

/// Among finite numbers that are not negative, the rank orders as the magnitudes do.
pub proof fn rank_orders_magnitudes(a: u64, b: u64)
    requires
        !sign_bit(a),
        !sign_bit(b),
        is_finite(a),
        is_finite(b),
    ensures
        rank_of(a) < rank_of(b) <==> scaled(a) < scaled(b),
{
    lemma_fields(a);
    lemma_fields(b);
    if exponent(a) == exponent(b) {
        let unit = pow2((exponent(a) + 1074) as nat) as int;
        lemma_pow2_pos((exponent(a) + 1074) as nat);
        if significand(a) < significand(b) {
            lemma_mul_strict_inequality(significand(a), significand(b), unit);
        } else {
            lemma_mul_inequality(significand(b), significand(a), unit);
        }
        lemma_equal_exponents(a, b);
    } else if exponent(a) < exponent(b) {
        lemma_lower_exponent(a, b);
    } else {
        lemma_lower_exponent(b, a);
    }
}

/// With equal exponents the bits order as the significands do.
proof fn lemma_equal_exponents(a: u64, b: u64)
    requires
        !sign_bit(a),
        !sign_bit(b),
        is_finite(a),
        is_finite(b),
        exponent(a) == exponent(b),
    ensures
        a < b <==> significand(a) < significand(b),
{
    lemma_fields(a);
    lemma_fields(b);
}

/// A lower exponent means a smaller number and smaller bits.
proof fn lemma_lower_exponent(a: u64, b: u64)
    requires
        !sign_bit(a),
        !sign_bit(b),
        is_finite(a),
        is_finite(b),
        exponent(a) < exponent(b),
    ensures
        a < b,
        scaled(a) < scaled(b),
{
    lemma_fields(a);
    lemma_fields(b);
    let low = (exponent(a) + 1074) as nat;
    let high = (exponent(b) + 1074) as nat;
    lemma_pow2_pos(low);
    lemma_pow2_unfold((low + 1) as nat);
    if low + 1 < high {
        lemma_pow2_strictly_increases((low + 1) as nat, high);
    }
    lemma_mul_strict_inequality(significand(a), 0x20_0000_0000_0000, pow2(low) as int);
    lemma_mul_inequality(0x10_0000_0000_0000, significand(b), pow2(high) as int);
    lemma_mul_inequality(2 * (pow2(low) as int), pow2(high) as int, 0x10_0000_0000_0000);
    lemma_mul_is_commutative(0x10_0000_0000_0000, pow2(high) as int);
}

} // verus!
