//! IEEE 754 binary64 numbers as bit patterns.
//!
//! A finite pattern stands for `±significand · 2^exponent`. The functions here
//! read the fields of a pattern, compare magnitudes, multiply a number by a
//! small whole factor and divide two whole numbers, all with integer
//! arithmetic only and with the rounding of binary64 arithmetic.
use vstd::arithmetic::div_mod::*;
use vstd::arithmetic::power2::*;
use vstd::bits::*;
use vstd::prelude::*;

verus! {

/// All bits but the sign.
pub const MAGNITUDE_MASK: u64 = 0x7fff_ffff_ffff_ffff;

/// The 52 stored bits of the significand.
pub const FRACTION_MASK: u64 = 0x000f_ffff_ffff_ffff;

/// The leading significand bit of a normal number, which is not stored.
pub const HIDDEN_BIT: u64 = 0x0010_0000_0000_0000;

/// The exponent of a subnormal number, and the bias of the stored exponent
/// less one.
pub const MIN_EXPONENT: i32 = -1074;

/// The 11-bit exponent field.
pub open spec fn exponent_field(bits: u64) -> nat {
    ((bits >> 52) & 0x7ff) as nat
}

/// The 52-bit fraction field.
pub open spec fn fraction_field(bits: u64) -> nat {
    (bits & FRACTION_MASK) as nat
}

/// The sign bit.
pub open spec fn is_negative(bits: u64) -> bool {
    bits >> 63 == 1
}

/// Neither an infinity nor a NaN.
pub open spec fn is_finite(bits: u64) -> bool {
    exponent_field(bits) != 0x7ff
}

/// The integer significand: the fraction, with the hidden bit for a normal
/// number.
pub open spec fn significand(bits: u64) -> nat {
    if exponent_field(bits) == 0 {
        fraction_field(bits)
    } else {
        fraction_field(bits) + pow2(52)
    }
}

/// The power of two that the significand is multiplied by.
pub open spec fn exponent(bits: u64) -> int {
    if exponent_field(bits) == 0 {
        -1074
    } else {
        exponent_field(bits) - 1075
    }
}

/// The power of two that scales the significand in `magnitude`.
pub open spec fn shift(bits: u64) -> nat {
    (exponent(bits) + 1074) as nat
}

/// The magnitude of a finite pattern in units of `2^-1074`, the smallest
/// positive binary64 number: `significand · 2^(exponent + 1074)`.
pub open spec fn magnitude(bits: u64) -> nat {
    significand(bits) * pow2(shift(bits))
}

/// `|x| <= bound` for the number `x` that `bits` stands for; false for
/// infinities and NaNs.
pub open spec fn magnitude_at_most(bits: u64, bound: nat) -> bool {
    is_finite(bits) && magnitude(bits) <= bound * pow2(1074)
}

/// The fields of the pattern fit their widths, and the pattern is made of
/// them.
pub proof fn lemma_fields(bits: u64)
    ensures
        exponent_field(bits) <= 0x7ff,
        fraction_field(bits) < pow2(52),
        (bits & MAGNITUDE_MASK) == exponent_field(bits) * pow2(52) + fraction_field(bits),
        exponent_field(bits & MAGNITUDE_MASK) == exponent_field(bits),
        fraction_field(bits & MAGNITUDE_MASK) == fraction_field(bits),
{
    lemma2_to64_rest();
    assert(((bits >> 52) & 0x7ff) <= 0x7ff) by (bit_vector);
    assert((bits & 0x000f_ffff_ffff_ffff) < 0x0010_0000_0000_0000) by (bit_vector);
    assert((bits & 0x7fff_ffff_ffff_ffff) == ((bits >> 52) & 0x7ff) * 0x0010_0000_0000_0000 + (bits
        & 0x000f_ffff_ffff_ffff)) by (bit_vector);
    assert((((bits & 0x7fff_ffff_ffff_ffff) >> 52) & 0x7ff) == ((bits >> 52) & 0x7ff))
        by (bit_vector);
    assert(((bits & 0x7fff_ffff_ffff_ffff) & 0x000f_ffff_ffff_ffff) == (bits
        & 0x000f_ffff_ffff_ffff)) by (bit_vector);
}

/// `2^e1 <= 2^e2` where `e1 <= e2`.
pub proof fn lemma_pow2_increases(e1: nat, e2: nat)
    requires
        e1 <= e2,
    ensures
        pow2(e1) <= pow2(e2),
{
    if e1 < e2 {
        lemma_pow2_strictly_increases(e1, e2);
    }
}

/// The binade of a magnitude: a subnormal magnitude lies under `2^52`, a
/// normal one with exponent field `e` in `[2^52 · 2^(e-1), 2^52 · 2^e)`.
pub proof fn lemma_magnitude_range(bits: u64)
    ensures
        exponent_field(bits) == 0 ==> magnitude(bits) == fraction_field(bits),
        exponent_field(bits) == 0 ==> magnitude(bits) < pow2(52),
        exponent_field(bits) > 0 ==> pow2(52) * pow2((exponent_field(bits) - 1) as nat)
            <= magnitude(bits),
        exponent_field(bits) > 0 ==> magnitude(bits) < pow2(52) * pow2(exponent_field(bits)),
{
    lemma_fields(bits);
    lemma2_to64();
    let e = exponent_field(bits);
    let f = fraction_field(bits);
    if e == 0 {
        assert(shift(bits) == 0);
        assert(magnitude(bits) == f * pow2(0));
    } else {
        let k = (e - 1) as nat;
        assert(shift(bits) == k);
        lemma_pow2_pos(k);
        lemma_pow2_unfold(e);
        let s = significand(bits);
        assert(pow2(52) * pow2(k) <= s * pow2(k)) by (nonlinear_arith)
            requires
                pow2(52) <= s,
                pow2(k) > 0,
        ;
        assert(s * pow2(k) < pow2(52) * (2 * pow2(k))) by (nonlinear_arith)
            requires
                s < 2 * pow2(52),
                pow2(k) > 0,
        ;
    }
}

/// Magnitudes are ordered as their bit patterns are.
pub proof fn lemma_magnitude_order(a: u64, b: u64)
    ensures
        magnitude(a) <= magnitude(b) <==> (a & MAGNITUDE_MASK) <= (b & MAGNITUDE_MASK),
{
    lemma_fields(a);
    lemma_fields(b);
    lemma_magnitude_range(a);
    lemma_magnitude_range(b);
    lemma2_to64_rest();
    let ea = exponent_field(a);
    let eb = exponent_field(b);
    let fa = fraction_field(a);
    let fb = fraction_field(b);
    assert(ea * pow2(52) + fa <= eb * pow2(52) + fb <==> ea < eb || (ea == eb && fa <= fb))
        by (nonlinear_arith)
        requires
            fa < pow2(52),
            fb < pow2(52),
    ;
    if ea == eb {
        let k = shift(a);
        lemma_pow2_pos(k);
        let sa = significand(a);
        let sb = significand(b);
        assert(sa * pow2(k) <= sb * pow2(k) <==> sa <= sb) by (nonlinear_arith)
            requires
                pow2(k) > 0,
        ;
    } else if ea < eb {
        lemma_strictly_below(a, b);
    } else {
        lemma_strictly_below(b, a);
    }
}

/// A smaller exponent field gives a strictly smaller magnitude.
proof fn lemma_strictly_below(a: u64, b: u64)
    requires
        exponent_field(a) < exponent_field(b),
    ensures
        magnitude(a) < magnitude(b),
{
    lemma_magnitude_range(a);
    lemma_magnitude_range(b);
    let ea = exponent_field(a);
    let kb = (exponent_field(b) - 1) as nat;
    lemma_pow2_pos(kb);
    lemma_pow2_increases(ea, kb);
    lemma_pow2_pos(52);
    if ea == 0 {
        assert(pow2(52) <= pow2(52) * pow2(kb)) by (nonlinear_arith)
            requires
                pow2(kb) > 0,
                pow2(52) > 0,
        ;
    } else {
        assert(pow2(52) * pow2(ea) <= pow2(52) * pow2(kb)) by (nonlinear_arith)
            requires
                pow2(ea) <= pow2(kb),
                pow2(52) > 0,
        ;
    }
}

/// Tells whether `|x| <= |limit|`, where `limit` is finite: an integer
/// comparison of the two patterns without their signs. An infinity or a NaN
/// as `bits` is never within the limit.
pub fn within(bits: u64, limit: u64) -> (r: bool)
    requires
        is_finite(limit),
    ensures
        r == (is_finite(bits) && magnitude(bits) <= magnitude(limit)),
{
    proof {
        lemma_magnitude_order(bits, limit);
        lemma_fields(bits);
        lemma_fields(limit);
        lemma2_to64_rest();
        let eb = exponent_field(bits);
        let el = exponent_field(limit);
        let fb = fraction_field(bits);
        let fl = fraction_field(limit);
        if !is_finite(bits) {
            assert(eb * pow2(52) + fb > el * pow2(52) + fl) by (nonlinear_arith)
                requires
                    eb == 0x7ff,
                    el < 0x7ff,
                    fl < pow2(52),
            ;
        }
    }
    (bits & MAGNITUDE_MASK) <= (limit & MAGNITUDE_MASK)
}


/// The number of low bits of `n` that a 53-bit significand cannot hold: the
/// least `k` with `n / 2^k < 2^53`.
pub open spec fn surplus(n: nat) -> nat
    decreases n,
{
    if n == 0 || n < pow2(53) {
        0
    } else {
        1 + surplus(n / 2)
    }
}

/// `n / 2^k` rounded to the nearest integer, a tie going to the even one.
pub open spec fn round_half_even(n: nat, k: nat) -> nat {
    let q = n / pow2(k);
    let r = n % pow2(k);
    if 2 * r > pow2(k) || (2 * r == pow2(k) && q % 2 == 1) {
        q + 1
    } else {
        q
    }
}

/// The integer part of `|x| · factor`, the product being rounded as binary64
/// arithmetic rounds it before its fraction is dropped: to 53 significant
/// bits, to nearest, ties to even. (Under `2^-1022` binary64 keeps fewer
/// bits; the integer part is zero there either way.)
pub open spec fn scaled_integer(bits: u64, factor: nat) -> nat {
    let p = significand(bits) * factor;
    let k = surplus(p);
    let m = round_half_even(p, k);
    let e = exponent(bits) + k;
    if e >= 0 {
        m * pow2(e as nat)
    } else {
        m / pow2((-e) as nat)
    }
}

/// The integer part of `|x| · factor` for a number under `2^36`, by integer
/// arithmetic on the pattern.
pub fn truncated_product(bits: u64, factor: u16) -> (n: u64)
    requires
        is_finite(bits),
        exponent(bits) < -16,
    ensures
        n == scaled_integer(bits, factor as nat),
{
    proof {
        lemma_fields(bits);
        lemma2_to64();
        lemma2_to64_rest();
    }
    let field: u64 = (bits >> 52) & 0x7ff;
    let fraction: u64 = bits & FRACTION_MASK;
    let sig: u64 = if field == 0 {
        fraction
    } else {
        fraction + HIDDEN_BIT
    };
    let exp: i32 = if field == 0 {
        MIN_EXPONENT
    } else {
        field as i32 - 1075
    };
    assert(sig == significand(bits));
    assert(exp == exponent(bits));
    assert(sig as u128 * factor as u128 <= 0x20_0000_0000_0000 * 0xffff) by (nonlinear_arith)
        requires
            sig < 0x20_0000_0000_0000,
            factor <= 0xffff,
    ;
    let p: u128 = sig as u128 * factor as u128;
    let mut q: u128 = p;
    let mut k: u32 = 0;
    let mut pw: u128 = 1;
    while q >= 0x20_0000_0000_0000
        invariant
            pw == pow2(k as nat),
            pw > 0,
            q == p / pw,
            p <= 0x20_0000_0000_0000 * 0xffff,
            pw <= 0x1_0000,
            k <= 16,
            surplus(p as nat) == k + surplus(q as nat),
            pow2(53) == 0x20_0000_0000_0000,
        decreases q,
    {
        proof {
            lemma_fundamental_div_mod(p as int, pw as int);
            assert(pw * (p / pw) >= pw * 0x20_0000_0000_0000) by (nonlinear_arith)
                requires
                    p / pw >= 0x20_0000_0000_0000,
                    pw > 0,
            ;
            lemma_mod_bound(p as int, pw as int);
            assert(pw * 0x20_0000_0000_0000 <= p);
            assert(pw <= 0xffff);
            lemma_div_denominator(p as int, pw as int, 2);
            lemma_pow2_unfold((k + 1) as nat);
            lemma2_to64();
            if k >= 16 {
                lemma_pow2_increases(16, k as nat);
            }
            lemma_pow2_increases((k + 1) as nat, 16);
        }
        q = q / 2;
        pw = pw * 2;
        k = k + 1;
    }
    proof {
        lemma_fundamental_div_mod(p as int, pw as int);
        lemma_mod_bound(p as int, pw as int);
    }
    let r: u128 = p % pw;
    let m: u128 = if 2 * r > pw || (2 * r == pw && q % 2 == 1) {
        q + 1
    } else {
        q
    };
    assert(k == surplus(p as nat));
    assert(m == round_half_even(p as nat, k as nat));
    let s: i32 = -(exp + k as i32);
    let narrow: u64 = m as u64;
    if s >= 64 {
        proof {
            lemma_pow2_increases(64, s as nat);
            lemma_basic_div(m as int, pow2(s as nat) as int);
        }
        0
    } else {
        let by: u64 = s as u64;
        proof {
            lemma_u64_shr_is_div(narrow, by);
        }
        narrow >> by
    }
}


/// The pattern of `90.0`.
pub const NINETY: u64 = 0x4056_8000_0000_0000;

/// The pattern of `180.0`.
pub const ONE_HUNDRED_EIGHTY: u64 = 0x4066_8000_0000_0000;

/// `NINETY` and `ONE_HUNDRED_EIGHTY` stand for 90 and 180.
pub proof fn lemma_limits()
    ensures
        is_finite(NINETY),
        magnitude(NINETY) == 90 * pow2(1074),
        is_finite(ONE_HUNDRED_EIGHTY),
        magnitude(ONE_HUNDRED_EIGHTY) == 180 * pow2(1074),
{
    lemma2_to64_rest();
    assert(((0x4056_8000_0000_0000u64 >> 52) & 0x7ff) == 0x405) by (bit_vector);
    assert((0x4056_8000_0000_0000u64 & 0x000f_ffff_ffff_ffff) == 0x6_8000_0000_0000)
        by (bit_vector);
    assert(((0x4066_8000_0000_0000u64 >> 52) & 0x7ff) == 0x406) by (bit_vector);
    assert((0x4066_8000_0000_0000u64 & 0x000f_ffff_ffff_ffff) == 0x6_8000_0000_0000)
        by (bit_vector);
    assert(significand(NINETY) == 90 * pow2(46));
    assert(significand(ONE_HUNDRED_EIGHTY) == 90 * pow2(46));
    assert(shift(NINETY) == 1028);
    assert(shift(ONE_HUNDRED_EIGHTY) == 1029);
    lemma_pow2_adds(46, 1028);
    lemma_pow2_adds(46, 1029);
    lemma_pow2_unfold(1029);
    let a = pow2(46);
    let b = pow2(1028);
    assert((90 * a) * b == 90 * (a * b)) by (nonlinear_arith);
    assert((90 * a) * (2 * b) == 180 * (a * b)) by (nonlinear_arith);
    lemma_pow2_unfold(1075);
    lemma_pow2_adds(46, 1029);
}

/// A number under `2^width` has an exponent under `width - 52`.
pub proof fn lemma_exponent_bound(bits: u64, bound: nat, width: nat)
    requires
        magnitude(bits) <= bound * pow2(1074),
        bound < pow2(width),
    ensures
        exponent(bits) < width - 52,
{
    lemma_fields(bits);
    lemma_magnitude_range(bits);
    let e = exponent_field(bits);
    if e > 0 {
        let k = (e - 1) as nat;
        lemma_pow2_adds(52, k);
        lemma_pow2_adds(width, 1074);
        lemma_pow2_pos(1074);
        assert(bound * pow2(1074) < pow2(width) * pow2(1074)) by (nonlinear_arith)
            requires
                bound < pow2(width),
                pow2(1074) > 0,
        ;
        if 52 + k >= width + 1074 {
            lemma_pow2_increases(width + 1074, 52 + k);
        }
    }
}

/// `surplus(n) <= j` where `n < 2^(53 + j)`.
pub proof fn lemma_surplus_bound(n: nat, j: nat)
    requires
        n < pow2(53 + j),
    ensures
        surplus(n) <= j,
    decreases n,
{
    if n == 0 || n < pow2(53) {
    } else {
        if j == 0 {
            assert(pow2(53 + 0) == pow2(53));
        } else {
            lemma_pow2_unfold(53 + j);
            assert(53 + j - 1 == 53 + (j - 1));
            lemma_surplus_bound(n / 2, (j - 1) as nat);
        }
    }
}

/// Rounding `n / d` to nearest does not pass an integer that `n / d` does
/// not pass.
pub proof fn lemma_round_bound(n: nat, k: nat, top: nat)
    requires
        n <= top * pow2(k),
    ensures
        round_half_even(n, k) <= top,
{
    let d = pow2(k);
    lemma_pow2_pos(k);
    lemma_fundamental_div_mod(n as int, d as int);
    lemma_mod_bound(n as int, d as int);
    let q = n / d;
    let r = n % d;
    assert(q <= top && (r > 0 ==> q < top)) by (nonlinear_arith)
        requires
            n == d * q + r,
            0 <= r < d,
            n <= top * d,
            d > 0,
    ;
}

/// Scaling keeps a bound: where `|x| <= bound`, the integer part of the
/// rounded product `|x| · factor` is at most `bound · factor`.
pub proof fn lemma_scaled_integer_bound(bits: u64, factor: nat, bound: nat)
    requires
        magnitude(bits) <= bound * pow2(1074),
        factor < pow2(16),
        exponent(bits) < -16,
    ensures
        scaled_integer(bits, factor) <= bound * factor,
{
    lemma_fields(bits);
    lemma2_to64_rest();
    let sig = significand(bits);
    let p = sig * factor;
    let k = surplus(p);
    lemma_pow2_adds(53, 16);
    assert(p < pow2(53) * pow2(16)) by (nonlinear_arith)
        requires
            p == sig * factor,
            sig < pow2(53),
            factor < pow2(16),
    ;
    lemma_surplus_bound(p, 16);
    let t = (-exponent(bits)) as nat;
    let sh = shift(bits);
    lemma_pow2_adds(sh, t);
    lemma_pow2_pos(sh);
    lemma_pow2_pos(t);
    assert(sig <= bound * pow2(t)) by (nonlinear_arith)
        requires
            sig * pow2(sh) <= bound * (pow2(sh) * pow2(t)),
            pow2(sh) > 0,
    ;
    let u = (t - k) as nat;
    lemma_pow2_adds(k, u);
    lemma_pow2_pos(u);
    lemma_pow2_pos(k);
    let top = bound * factor * pow2(u);
    assert(p <= top * pow2(k)) by (nonlinear_arith)
        requires
            p == sig * factor,
            sig <= bound * (pow2(k) * pow2(u)),
            top == bound * factor * pow2(u),
    ;
    lemma_round_bound(p, k, top);
    let m = round_half_even(p, k);
    lemma_div_is_ordered(m as int, top as int, pow2(u) as int);
    lemma_div_by_multiple((bound * factor) as int, pow2(u) as int);
}


/// Rounding to nearest moves a quotient by at most half a unit, and never
/// below the quotient's integer part.
pub proof fn lemma_round_is_near(n: nat, k: nat)
    ensures
        n / pow2(k) <= round_half_even(n, k),
        2 * (round_half_even(n, k) * pow2(k)) <= 2 * n + pow2(k),
{
    let d = pow2(k);
    lemma_pow2_pos(k);
    lemma_fundamental_div_mod(n as int, d as int);
    lemma_mod_bound(n as int, d as int);
    let q = n / d;
    let r = n % d;
    let m = round_half_even(n, k);
    assert(2 * (m * d) <= 2 * n + d) by (nonlinear_arith)
        requires
            n == d * q + r,
            0 <= r < d,
            m == q || (m == q + 1 && 2 * r >= d),
    ;
}

/// The exact product `significand · factor`, which stands for
/// `|x| · factor` in units of `2^exponent`.
pub open spec fn exact_product(bits: u64, factor: nat) -> nat {
    significand(bits) * factor
}

/// How many units of `2^exponent` make one: `2^-exponent`, for a negative
/// exponent.
pub open spec fn units_per_one(bits: u64) -> nat {
    pow2((-exponent(bits)) as nat)
}

/// The integer part of the rounded product lies between the integer part of
/// the exact product and the next integer above the exact product.
pub proof fn lemma_scaled_integer_brackets(bits: u64, factor: nat)
    requires
        factor < pow2(16),
        exponent(bits) < -16,
    ensures
        exact_product(bits, factor) / units_per_one(bits) <= scaled_integer(bits, factor),
        scaled_integer(bits, factor) * units_per_one(bits) < exact_product(bits, factor)
            + units_per_one(bits),
{
    lemma_fields(bits);
    lemma2_to64_rest();
    let sig = significand(bits);
    let p = exact_product(bits, factor);
    let k = surplus(p);
    lemma_pow2_adds(53, 16);
    assert(p < pow2(53) * pow2(16)) by (nonlinear_arith)
        requires
            p == sig * factor,
            sig < pow2(53),
            factor < pow2(16),
    ;
    lemma_surplus_bound(p, 16);
    let t = (-exponent(bits)) as nat;
    let u = (t - k) as nat;
    lemma_pow2_adds(k, u);
    lemma_pow2_pos(u);
    lemma_pow2_pos(k);
    lemma_pow2_pos(t);
    let m = round_half_even(p, k);
    let floor = p / pow2(t);
    lemma_round_is_near(p, k);
    // from below
    lemma_div_denominator(p as int, pow2(k) as int, pow2(u) as int);
    lemma_div_is_ordered((p / pow2(k)) as int, m as int, pow2(u) as int);
    // from above
    lemma_fundamental_div_mod(p as int, pow2(t) as int);
    lemma_mod_bound(p as int, pow2(t) as int);
    let top = (floor + 1) * pow2(u);
    let whole = pow2(t) * floor;
    assert((floor + 1) * pow2(t) == whole + pow2(t)) by (nonlinear_arith)
        requires
            whole == pow2(t) * floor,
    ;
    assert(top * pow2(k) == (floor + 1) * pow2(t)) by (nonlinear_arith)
        requires
            pow2(t) == pow2(k) * pow2(u),
            top == (floor + 1) * pow2(u),
    ;
    assert(p <= top * pow2(k));
    lemma_round_bound(p, k, top);
    lemma_div_is_ordered(m as int, top as int, pow2(u) as int);
    lemma_div_by_multiple((floor + 1) as int, pow2(u) as int);
    let n = scaled_integer(bits, factor);
    assert(n == m / pow2(u));
    assert(n <= floor + 1);
    assert(n > floor ==> p % pow2(t) > 0) by {
        if n > floor && p % pow2(t) == 0 {
            let low = floor * pow2(u);
            assert(p == low * pow2(k)) by (nonlinear_arith)
                requires
                    p == pow2(t) * floor,
                    pow2(t) == pow2(k) * pow2(u),
                    low == floor * pow2(u),
            ;
            lemma_round_bound(p, k, low);
            lemma_div_is_ordered(m as int, low as int, pow2(u) as int);
            lemma_div_by_multiple(floor as int, pow2(u) as int);
        }
    }
    assert(n * pow2(t) < p + pow2(t)) by (nonlinear_arith)
        requires
            n <= floor + 1,
            p == pow2(t) * floor + (p % pow2(t)),
            0 <= p % pow2(t),
            n > floor ==> p % pow2(t) > 0,
            pow2(t) > 0,
    ;
}

/// Truncation, not rounding: the integer part of the rounded product is the
/// integer part of the exact product, unless the exact product falls short
/// of the next integer by no more than half a unit in its last place, where
/// binary64 multiplication itself gives that integer.
pub proof fn lemma_scaled_integer_is_floor(bits: u64, factor: nat)
    requires
        factor < pow2(16),
        exponent(bits) < -16,
        2 * ((exact_product(bits, factor) / units_per_one(bits) + 1) * units_per_one(bits)
            - exact_product(bits, factor)) > pow2(surplus(exact_product(bits, factor))),
    ensures
        scaled_integer(bits, factor) == exact_product(bits, factor) / units_per_one(bits),
{
    lemma_scaled_integer_brackets(bits, factor);
    lemma_fields(bits);
    lemma2_to64_rest();
    let sig = significand(bits);
    let p = exact_product(bits, factor);
    let k = surplus(p);
    lemma_pow2_adds(53, 16);
    assert(p < pow2(53) * pow2(16)) by (nonlinear_arith)
        requires
            p == sig * factor,
            sig < pow2(53),
            factor < pow2(16),
    ;
    lemma_surplus_bound(p, 16);
    let t = (-exponent(bits)) as nat;
    let u = (t - k) as nat;
    lemma_pow2_adds(k, u);
    lemma_pow2_pos(u);
    lemma_pow2_pos(k);
    let m = round_half_even(p, k);
    let floor = p / pow2(t);
    lemma_round_is_near(p, k);
    let next = (floor + 1) * pow2(u);
    assert(m < next) by (nonlinear_arith)
        requires
            2 * (m * pow2(k)) <= 2 * p + pow2(k),
            2 * ((floor + 1) * pow2(t) - p) > pow2(k),
            pow2(t) == pow2(k) * pow2(u),
            next == (floor + 1) * pow2(u),
            pow2(k) > 0,
    ;
    lemma_div_by_multiple((floor + 1) as int, pow2(u) as int);
    lemma_fundamental_div_mod(m as int, pow2(u) as int);
    lemma_mod_bound(m as int, pow2(u) as int);
    let n = m / pow2(u);
    assert(n < floor + 1) by (nonlinear_arith)
        requires
            m == pow2(u) * n + (m % pow2(u)),
            0 <= m % pow2(u),
            m < (floor + 1) * pow2(u),
            pow2(u) > 0,
    ;
}


/// The least shift `s`, from `from` on, with `n · 2^s / d >= 2^52`: the
/// shift that brings the quotient up to a full significand.
pub open spec fn lift(n: nat, d: nat, from: nat) -> nat
    decreases 128 - from,
{
    if from >= 128 || (n * pow2(from)) / d >= pow2(52) {
        from
    } else {
        lift(n, d, from + 1)
    }
}

/// The significand of `n / d` rounded to 53 bits: `n · 2^s / d` rounded to
/// the nearest integer, a tie going to the even one, where `s` is
/// `lift(n, d, 0)`.
pub open spec fn quotient_significand(n: nat, d: nat) -> nat {
    let scaled = n * pow2(lift(n, d, 0));
    let q = scaled / d;
    let r = scaled % d;
    if 2 * r > d || (2 * r == d && q % 2 == 1) {
        q + 1
    } else {
        q
    }
}

/// The pattern of the normal number `±significand · 2^exponent`.
pub open spec fn compose(negative: bool, significand: nat, exponent: int) -> u64 {
    ((if negative {
        pow2(63)
    } else {
        0
    }) + (exponent + 1075) * pow2(52) + (significand - pow2(52))) as u64
}

/// The pattern of the binary64 number nearest to `±n / d`, as binary64
/// division gives it for two whole numbers.
pub open spec fn ratio(negative: bool, n: nat, d: nat) -> u64 {
    if n == 0 {
        compose(negative, pow2(52), -1075)
    } else {
        let m = quotient_significand(n, d);
        let s = lift(n, d, 0);
        if m == pow2(53) {
            compose(negative, pow2(52), 1 - s)
        } else {
            compose(negative, m, -s)
        }
    }
}

/// `bits` is within half a unit in its last place of `n / d`: no binary64
/// number of its binade is nearer.
pub open spec fn is_nearest(bits: u64, n: nat, d: nat) -> bool {
    let gap = significand(bits) * d - n * units_per_one(bits);
    -(d as int) <= 2 * gap <= d as int
}

/// The fields of a pattern made of a sign, an exponent field and a fraction
/// are those it was made of.
pub proof fn lemma_composed(negative: bool, field: nat, fraction: nat)
    requires
        field < 0x7ff,
        fraction < pow2(52),
    ensures
        ({
            let bits = ((if negative {
                pow2(63)
            } else {
                0
            }) + field * pow2(52) + fraction) as u64;
            &&& exponent_field(bits) == field
            &&& fraction_field(bits) == fraction
            &&& is_negative(bits) == negative
            &&& is_finite(bits)
            &&& bits == (if negative {
                pow2(63)
            } else {
                0
            }) + field * pow2(52) + fraction
        }),
{
    lemma2_to64_rest();
    let sg: u64 = if negative {
        1
    } else {
        0
    };
    let f: u64 = field as u64;
    let r: u64 = fraction as u64;
    assert(f * 0x10_0000_0000_0000 <= 0x7fe * 0x10_0000_0000_0000) by (nonlinear_arith)
        requires
            f <= 0x7fe,
    ;
    let bits: u64 = (sg * 0x8000_0000_0000_0000 + f * 0x10_0000_0000_0000 + r) as u64;
    assert(bits == (sg << 63) | (f << 52) | r) by (bit_vector)
        requires
            sg <= 1,
            f < 0x7ff,
            r < 0x10_0000_0000_0000,
            bits == sg * 0x8000_0000_0000_0000 + f * 0x10_0000_0000_0000 + r,
    ;
    assert(((((sg << 63) | (f << 52) | r) >> 52) & 0x7ff) == f) by (bit_vector)
        requires
            sg <= 1,
            f < 0x7ff,
            r < 0x10_0000_0000_0000,
    ;
    assert((((sg << 63) | (f << 52) | r) & 0x000f_ffff_ffff_ffff) == r) by (bit_vector)
        requires
            sg <= 1,
            f < 0x7ff,
            r < 0x10_0000_0000_0000,
    ;
    assert(((((sg << 63) | (f << 52) | r) >> 63) == 1) == (sg == 1)) by (bit_vector)
        requires
            sg <= 1,
            f < 0x7ff,
            r < 0x10_0000_0000_0000,
    ;
}


/// Divides two whole numbers as binary64 arithmetic does: the pattern of
/// the number nearest to `±n / d`.
pub fn divide(negative: bool, n: u32, d: u16) -> (bits: u64)
    requires
        d > 0,
    ensures
        bits == ratio(negative, n as nat, d as nat),
        is_finite(bits),
        is_negative(bits) == negative,
        n == 0 ==> magnitude(bits) == 0,
        n > 0 ==> exponent(bits) < 0 && is_nearest(bits, n as nat, d as nat),
{
    proof {
        lemma2_to64();
        lemma2_to64_rest();
    }
    let sign: u64 = if negative {
        0x8000_0000_0000_0000
    } else {
        0
    };
    if n == 0 {
        proof {
            lemma_composed(negative, 0, 0);
        }
        return sign;
    }
    let mut scaled: u128 = n as u128;
    let mut s: u32 = 0;
    while scaled / (d as u128) < 0x10_0000_0000_0000
        invariant
            d > 0,
            n > 0,
            s <= 68,
            scaled == n * pow2(s as nat),
            scaled < 0x20_0000_0000_0000 * 0x1_0000,
            lift(n as nat, d as nat, 0) == lift(n as nat, d as nat, s as nat),
            pow2(52) == 0x10_0000_0000_0000,
            scaled > 0,
            s == 0 ==> scaled == n,
            s > 0 ==> scaled < 2 * (0x10_0000_0000_0000 * d),
        decreases 0x20_0000_0000_0000 * 0x1_0000 - scaled,
    {
        proof {
            lemma_fundamental_div_mod(scaled as int, d as int);
            lemma_mod_bound(scaled as int, d as int);
            assert(scaled < 0x10_0000_0000_0000 * d && scaled < 0x10_0000_0000_0000 * 0x1_0000)
                by (nonlinear_arith)
                requires
                    scaled == d * (scaled / (d as u128)) + scaled % (d as u128),
                    scaled % (d as u128) < d,
                    scaled / (d as u128) < 0x10_0000_0000_0000,
                    0 < d < 0x1_0000,
            ;
            lemma_pow2_unfold((s + 1) as nat);
            lemma2_to64_rest();
            if s >= 68 {
                lemma_pow2_increases(68, s as nat);
                lemma_pow2_adds(64, 4);
                lemma2_to64();
                assert(n * pow2(s as nat) >= pow2(68)) by (nonlinear_arith)
                    requires
                        n >= 1,
                        pow2(s as nat) >= pow2(68),
                ;
            }
            assert(n * (2 * pow2(s as nat)) == 2 * (n * pow2(s as nat))) by (nonlinear_arith);
        }
        scaled = scaled * 2;
        s = s + 1;
    }
    let q: u128 = scaled / (d as u128);
    let r: u128 = scaled % (d as u128);
    proof {
        lemma_fundamental_div_mod(scaled as int, d as int);
        lemma_mod_bound(scaled as int, d as int);
        assert(q < 0x20_0000_0000_0000) by (nonlinear_arith)
            requires
                scaled == d * q + r,
                0 <= r,
                scaled < 0x20_0000_0000_0000 * 0x1_0000,
                s == 0 ==> scaled < 0x1_0000_0000,
                s > 0 ==> scaled < 2 * (0x10_0000_0000_0000 * d),
                d > 0,
        ;
    }
    let m: u128 = if 2 * r > d as u128 || (2 * r == d as u128 && q % 2 == 1) {
        q + 1
    } else {
        q
    };
    let (significand, field): (u64, u64) = if m == 0x20_0000_0000_0000 {
        (0x10_0000_0000_0000, (1076 - s) as u64)
    } else {
        (m as u64, (1075 - s) as u64)
    };
    let bits: u64 = sign + field * 0x10_0000_0000_0000 + (significand - 0x10_0000_0000_0000);
    proof {
        assert(s >= 21) by {
            if s < 21 {
                lemma_pow2_increases(s as nat, 20);
                assert(scaled < 0x1_0000_0000 * 0x10_0000) by (nonlinear_arith)
                    requires
                        scaled == n * pow2(s as nat),
                        n < 0x1_0000_0000,
                        pow2(s as nat) <= 0x10_0000,
                ;
                assert(q <= scaled) by (nonlinear_arith)
                    requires
                        scaled == d * q + r,
                        0 <= r,
                        d >= 1,
                        q >= 0,
                ;
            }
        }
        lemma_composed(negative, field as nat, (significand - 0x10_0000_0000_0000) as nat);
        let unit = units_per_one(bits);
        if m == 0x20_0000_0000_0000 {
            lemma_pow2_unfold(s as nat);
            assert(unit == pow2((s - 1) as nat));
            assert(2 * (significand * d - n * unit) == m * d - scaled) by (nonlinear_arith)
                requires
                    significand * 2 == m,
                    scaled == n * (2 * unit),
            ;
        } else {
            assert(unit == pow2(s as nat));
        }
        assert(-(d as int) <= 2 * (m * d - scaled) <= d as int) by (nonlinear_arith)
            requires
                scaled == d * q + r,
                0 <= r < d,
                m == q || (m == q + 1 && 2 * r >= d),
                m == q + 1 || 2 * r <= d,
        ;
    }
    bits
}

/// A whole number that orders the finite patterns as the numbers they stand
/// for: the pattern without its sign, and the negative of it for a negative
/// number. The two zeros have the same key.
pub open spec fn order_key_of(bits: u64) -> int {
    if is_negative(bits) {
        -((bits & MAGNITUDE_MASK) as int)
    } else {
        (bits & MAGNITUDE_MASK) as int
    }
}

/// The magnitude with the sign of the number, in units of `2^-1074`.
pub open spec fn signed_magnitude(bits: u64) -> int {
    if is_negative(bits) {
        -(magnitude(bits) as int)
    } else {
        magnitude(bits) as int
    }
}

/// The key by which finite patterns are ordered as numbers.
pub fn order_key(bits: u64) -> (key: i64)
    ensures
        key == order_key_of(bits),
{
    let plain: u64 = bits & MAGNITUDE_MASK;
    assert(plain <= 0x7fff_ffff_ffff_ffff) by (bit_vector)
        requires
            plain == bits & 0x7fff_ffff_ffff_ffff,
    ;
    if (bits >> 63) == 1 {
        -(plain as i64)
    } else {
        plain as i64
    }
}

/// The keys are ordered as the numbers are.
pub proof fn lemma_order_key(a: u64, b: u64)
    ensures
        order_key_of(a) <= order_key_of(b) <==> signed_magnitude(a) <= signed_magnitude(b),
{
    lemma_magnitude_order(a, b);
    lemma_magnitude_order(b, a);
    lemma_magnitude_order(a, 0);
    lemma_magnitude_order(b, 0);
    assert(((0u64 >> 52) & 0x7ff) == 0 && (0u64 & 0x000f_ffff_ffff_ffff) == 0 && (0u64
        & 0x7fff_ffff_ffff_ffff) == 0) by (bit_vector);
    assert(magnitude(0) == 0) by {
        lemma_magnitude_range(0);
    }
}

} // verus!
