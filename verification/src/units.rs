//! Fixed-point conventions and the integer arithmetic shared by every module.

use vstd::prelude::*;
use vstd::arithmetic::div_mod::{
    lemma_div_is_ordered, lemma_div_multiples_vanish, lemma_div_pos_is_pos,
    lemma_fundamental_div_mod, lemma_fundamental_div_mod_converse, lemma_mod_bound,
};
use vstd::arithmetic::mul::{
    lemma_mul_inequality, lemma_mul_is_commutative, lemma_mul_nonnegative,
};

verus! {

/// The integer that stands for `1.0`.
pub const UNIT: i32 = 1000;

/// Largest magnitude a rectangle edge may have, so that widths and heights
/// always fit in an `i32`.
pub const COORD_MAX: i32 = 1_073_741_823;

/// `n` restricted to the closed interval spanned by `start` and `end`,
/// whichever order the two bounds are given in.
pub open spec fn spec_clamp(n: int, start: int, end: int) -> int {
    if start <= end {
        if n < start {
            start
        } else if n > end {
            end
        } else {
            n
        }
    } else {
        if n < end {
            end
        } else if n > start {
            start
        } else {
            n
        }
    }
}

/// The quotient of `a` by a positive `b`, rounded toward zero.
pub open spec fn trunc_div(a: int, b: int) -> int {
    if a >= 0 {
        a / b
    } else {
        -((-a) / b)
    }
}

/// The point `num / den` of the way from `from` to `to`, rounded toward
/// `from`. The fraction is held within `[0, 1]`, and a denominator of zero
/// counts as the fraction zero.
pub open spec fn lerp(from: int, to: int, num: int, den: int) -> int {
    if den <= 0 || num <= 0 {
        from
    } else if num >= den {
        to
    } else {
        from + trunc_div((to - from) * num, den)
    }
}

/// `value` pulled into the range of an `i32`.
pub open spec fn saturate(value: int) -> int {
    spec_clamp(value, i32::MIN as int, i32::MAX as int)
}

/// Restricts `n` to the closed interval between `start` and `end`.
pub fn clamp(n: i64, start: i64, end: i64) -> (r: i64)
    ensures
        r == spec_clamp(n as int, start as int, end as int),
{
    if start <= end {
        if n < start {
            start
        } else if n > end {
            end
        } else {
            n
        }
    } else {
        if n < end {
            end
        } else if n > start {
            start
        } else {
            n
        }
    }
}

/// Narrows `value` to an `i32`, stopping at the ends of its range.
pub fn saturate_i32(value: i64) -> (r: i32)
    ensures
        r == saturate(value as int),
{
    if value < i32::MIN as i64 {
        i32::MIN
    } else if value > i32::MAX as i64 {
        i32::MAX
    } else {
        value as i32
    }
}

/// A product of two magnitudes below `2^31` stays below `2^62`.
pub proof fn lemma_product_bound(a: int, b: int)
    requires
        -0x8000_0000 <= a <= 0x8000_0000,
        -0x8000_0000 <= b <= 0x8000_0000,
    ensures
        -0x4000_0000_0000_0000 <= a * b <= 0x4000_0000_0000_0000,
{
    assert(-0x4000_0000_0000_0000 <= a * b <= 0x4000_0000_0000_0000) by (nonlinear_arith)
        requires
            -0x8000_0000 <= a <= 0x8000_0000,
            -0x8000_0000 <= b <= 0x8000_0000,
    ;
}

/// A proper fraction of a non-negative span is non-negative and no larger
/// than the span.
pub proof fn lemma_fraction_of_span(span: int, num: int, den: int)
    requires
        0 <= span,
        0 < num < den,
    ensures
        0 <= span * num,
        0 <= (span * num) / den <= span,
{
    lemma_mul_nonnegative(span, num);
    lemma_div_pos_is_pos(span * num, den);
    lemma_mul_inequality(num, den, span);
    lemma_mul_is_commutative(span, num);
    lemma_mul_is_commutative(span, den);
    lemma_div_is_ordered(span * num, span * den, den);
    lemma_div_multiples_vanish(span, den);
    lemma_mul_is_commutative(den, span);
}

/// An interpolated value lies between the two ends.
pub proof fn lemma_lerp_between(from: int, to: int, num: int, den: int)
    ensures
        from <= to ==> from <= lerp(from, to, num, den) <= to,
        to <= from ==> to <= lerp(from, to, num, den) <= from,
{
    if den > 0 && 0 < num < den {
        if from <= to {
            lemma_fraction_of_span(to - from, num, den);
        } else {
            lemma_fraction_of_span(from - to, num, den);
            assert(-((to - from) * num) == (from - to) * num) by (nonlinear_arith);
            if (to - from) * num >= 0 {
                assert((from - to) * num == 0);
            }
        }
    }
}

/// The widest ends that `lerp_i64` accepts.
pub const LERP_LIMIT: i64 = 0x100_0000_0000;

/// Interpolates between two moderately sized integers: the point `num / den`
/// of the way from `from` to `to`, rounded toward `from`.
pub(crate) fn lerp_i64(from: i64, to: i64, num: usize, den: usize) -> (r: i64)
    requires
        -LERP_LIMIT <= from <= LERP_LIMIT,
        -LERP_LIMIT <= to <= LERP_LIMIT,
    ensures
        r == lerp(from as int, to as int, num as int, den as int),
{
    if den == 0 || num == 0 {
        return from;
    }
    if num >= den {
        return to;
    }
    let span: i128 = to as i128 - from as i128;
    let fraction: i128 = num as i128;
    proof {
        lemma_lerp_between(from as int, to as int, num as int, den as int);
        assert(-0x200_0000_0000 * 0x1_0000_0000_0000_0000 <= span * fraction
            <= 0x200_0000_0000 * 0x1_0000_0000_0000_0000) by (nonlinear_arith)
            requires
                -0x200_0000_0000 <= span <= 0x200_0000_0000,
                0 <= fraction <= 0x1_0000_0000_0000_0000,
        ;
    }
    let step: i128 = (span * fraction) / (den as i128);
    (from as i128 + step) as i64
}

/// Interpolates between two `i32` values: the point `num / den` of the way
/// from `from` to `to`, rounded toward `from`.
pub fn lerp_i32(from: i32, to: i32, num: usize, den: usize) -> (r: i32)
    ensures
        r == lerp(from as int, to as int, num as int, den as int),
{
    proof {
        lemma_lerp_between(from as int, to as int, num as int, den as int);
    }
    lerp_i64(from as i64, to as i64, num, den) as i32
}

/// How the remainder that rounds toward zero relates to the remainder that
/// is never negative.
pub proof fn lemma_remainder_of_negative(x: int, m: int)
    requires
        m > 0,
    ensures
        0 <= x % m < m,
        x < 0 && (-x) % m == 0 ==> x % m == 0,
        x < 0 && (-x) % m != 0 ==> x % m == m - (-x) % m,
{
    lemma_mod_bound(x, m);
    lemma_mod_bound(-x, m);
    lemma_fundamental_div_mod(x, m);
    lemma_fundamental_div_mod(-x, m);
    if x < 0 {
        let q = (-x) / m;
        let r = (-x) % m;
        if r == 0 {
            assert(x == (-q) * m + 0) by (nonlinear_arith)
                requires
                    -x == m * q + r,
                    r == 0,
            ;
            lemma_fundamental_div_mod_converse(x, m, -q, 0);
        } else {
            assert(x == (-q - 1) * m + (m - r)) by (nonlinear_arith)
                requires
                    -x == m * q + r,
            ;
            lemma_fundamental_div_mod_converse(x, m, -q - 1, m - r);
        }
    }
}

/// The remainder of `x` by a positive `m` that is never negative.
pub(crate) fn remainder(x: i64, m: i64) -> (r: i64)
    requires
        m > 0,
    ensures
        r == (x as int) % (m as int),
        0 <= r < m,
{
    proof {
        lemma_remainder_of_negative(x as int, m as int);
    }
    let rest: i64 = x % m;
    if rest < 0 {
        rest + m
    } else {
        rest
    }
}

} // verus!
