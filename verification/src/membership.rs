//! Membership functions: the degree to which a crisp value belongs to a
//! trapezoidal or triangular fuzzy set.
//!
//! Crisp values and breakpoints are `i32`, so that no ramp is wider than
//! `DEGREE_ONE` units: every unit along a ramp is worth at least one step.

use vstd::prelude::*;

verus! {

/// Full membership. A degree is a whole number of steps between `0` (not a
/// member) and `DEGREE_ONE` (fully a member). It is 60000 times 2 to the
/// 17th: a multiple of every ramp width of the built-in sets, and more than
/// the widest ramp that `i32` breakpoints can span.
pub const DEGREE_ONE: u64 = 7_864_320_000;

/// The degree reached `offset` units into a ramp that is `width` units wide,
/// rounded down to a whole step.
pub open spec fn ramp(offset: int, width: int) -> int {
    offset * DEGREE_ONE as int / width
}

/// Membership of `x` in the trapezoid that rises from `a` to `b`, is flat
/// from `b` to `c` and falls from `c` to `d`. The feet `a` and `d` themselves
/// are outside the set, also where a ramp has no width.
pub open spec fn spec_trapezoidal(x: int, a: int, b: int, c: int, d: int) -> int {
    if x <= a || x >= d {
        0
    } else if b <= x <= c {
        DEGREE_ONE as int
    } else if x < b {
        ramp(x - a, b - a)
    } else {
        ramp(d - x, d - c)
    }
}

/// Membership of `x` in the triangle that rises from `a` to its peak at `b`
/// and falls from there to `c`. The feet `a` and `c` themselves are outside
/// the set, also where a ramp has no width.
pub open spec fn spec_triangular(x: int, a: int, b: int, c: int) -> int {
    if x <= a || x >= c {
        0
    } else if x == b {
        DEGREE_ONE as int
    } else if x < b {
        ramp(x - a, b - a)
    } else {
        ramp(c - x, c - b)
    }
}

/// `a <= b <= c <= d`: the breakpoints of a trapezoid are in order.
pub open spec fn trapezoid_in_order(a: int, b: int, c: int, d: int) -> bool {
    a <= b <= c <= d
}

/// `a <= b <= c`: the breakpoints of a triangle are in order.
pub open spec fn triangle_in_order(a: int, b: int, c: int) -> bool {
    a <= b <= c
}

/// A point strictly inside a ramp has a degree strictly below full membership.
pub proof fn lemma_ramp_bounds(offset: int, width: int)
    requires
        0 <= offset < width,
    ensures
        0 <= ramp(offset, width) < DEGREE_ONE,
{
    let one: int = DEGREE_ONE as int;
    assert(0 <= offset * one / width < one) by (nonlinear_arith)
        requires
            0 <= offset < width,
            one > 0,
    ;
}

/// A ramp's degree is the exact linear interpolation `offset / width`,
/// counted in steps and rounded down: it falls short of the exact value by
/// less than one step.
pub proof fn lemma_ramp_rounds_down(offset: int, width: int)
    requires
        0 <= offset,
        0 < width,
    ensures
        ramp(offset, width) * width <= offset * DEGREE_ONE < (ramp(offset, width) + 1) * width,
{
    let scaled: int = offset * DEGREE_ONE as int;
    assert((scaled / width) * width <= scaled < (scaled / width + 1) * width)
        by (nonlinear_arith)
        requires
            0 < width,
    ;
}

/// Any two `i32` values are less than `DEGREE_ONE` apart.
proof fn lemma_width_fits(low: i32, high: i32)
    ensures
        high - low < DEGREE_ONE,
{
}

/// On a ramp that is no wider than `DEGREE_ONE` units, every unit further
/// along raises the degree by at least one step, and the first unit reaches
/// at least one step.
proof fn lemma_ramp_strict(lower: int, upper: int, width: int)
    requires
        0 <= lower < upper,
        0 < width <= DEGREE_ONE,
    ensures
        ramp(lower, width) < ramp(upper, width),
        0 < ramp(upper, width),
{
    let one: int = DEGREE_ONE as int;
    let low: int = lower * one;
    let high: int = upper * one;
    assert(0 <= low && low + width <= high) by (nonlinear_arith)
        requires
            low == lower * one,
            high == upper * one,
            0 <= lower,
            lower + 1 <= upper,
            0 < width <= one,
    ;
    assert(0 <= low / width < high / width) by (nonlinear_arith)
        requires
            0 <= low,
            low + width <= high,
            0 < width,
    ;
}

/// A trapezoidal degree lies between no and full membership, whatever the
/// breakpoints.
pub proof fn lemma_trapezoidal_bounds(x: int, a: int, b: int, c: int, d: int)
    ensures
        0 <= spec_trapezoidal(x, a, b, c, d) <= DEGREE_ONE,
{
    if x <= a || x >= d {
    } else if b <= x <= c {
    } else if x < b {
        lemma_ramp_bounds(x - a, b - a);
    } else {
        lemma_ramp_bounds(d - x, d - c);
    }
}

/// At or below the lower foot and at or above the upper foot a trapezoid has
/// no members.
pub proof fn lemma_trapezoidal_zero_outside(x: int, a: int, b: int, c: int, d: int)
    requires
        x <= a || x >= d,
    ensures
        spec_trapezoidal(x, a, b, c, d) == 0,
{
}

/// Strictly between the feet every point is a member to some degree: no
/// point of the support is rounded down to nothing.
pub proof fn lemma_trapezoidal_positive_inside(x: i32, a: i32, b: i32, c: i32, d: i32)
    requires
        a < x < d,
    ensures
        0 < spec_trapezoidal(x as int, a as int, b as int, c as int, d as int),
{
    if b <= x <= c {
    } else if x < b {
        lemma_width_fits(a, b);
        lemma_ramp_strict(0, x - a, b - a);
    } else {
        lemma_width_fits(c, d);
        lemma_ramp_strict(0, d - x, d - c);
    }
}

/// Between the feet, every point of the plateau is fully a member.
pub proof fn lemma_trapezoidal_full_on_plateau(x: int, a: int, b: int, c: int, d: int)
    requires
        a < x < d,
        b <= x <= c,
    ensures
        spec_trapezoidal(x, a, b, c, d) == DEGREE_ONE,
{
}

/// On the rising edge the degree grows strictly with `x`.
pub proof fn lemma_trapezoidal_rising(x1: i32, x2: i32, a: i32, b: i32, c: i32, d: i32)
    requires
        trapezoid_in_order(a as int, b as int, c as int, d as int),
        a < x1 < x2 < b,
    ensures
        spec_trapezoidal(x1 as int, a as int, b as int, c as int, d as int) < spec_trapezoidal(
            x2 as int,
            a as int,
            b as int,
            c as int,
            d as int,
        ),
{
    lemma_width_fits(a, b);
    lemma_ramp_strict(x1 - a, x2 - a, b - a);
}

/// On the falling edge the degree drops strictly as `x` grows.
pub proof fn lemma_trapezoidal_falling(x1: i32, x2: i32, a: i32, b: i32, c: i32, d: i32)
    requires
        trapezoid_in_order(a as int, b as int, c as int, d as int),
        c < x1 < x2 < d,
    ensures
        spec_trapezoidal(x1 as int, a as int, b as int, c as int, d as int) > spec_trapezoidal(
            x2 as int,
            a as int,
            b as int,
            c as int,
            d as int,
        ),
{
    lemma_width_fits(c, d);
    lemma_ramp_strict(d - x2, d - x1, d - c);
}

/// A triangular degree lies between no and full membership, whatever the
/// breakpoints.
pub proof fn lemma_triangular_bounds(x: int, a: int, b: int, c: int)
    ensures
        0 <= spec_triangular(x, a, b, c) <= DEGREE_ONE,
{
    if x <= a || x >= c {
    } else if x == b {
    } else if x < b {
        lemma_ramp_bounds(x - a, b - a);
    } else {
        lemma_ramp_bounds(c - x, c - b);
    }
}

/// At or below the lower foot and at or above the upper foot a triangle has
/// no members.
pub proof fn lemma_triangular_zero_outside(x: int, a: int, b: int, c: int)
    requires
        x <= a || x >= c,
    ensures
        spec_triangular(x, a, b, c) == 0,
{
}

/// Strictly between the feet every point is a member to some degree: no
/// point of the support is rounded down to nothing.
pub proof fn lemma_triangular_positive_inside(x: i32, a: i32, b: i32, c: i32)
    requires
        a < x < c,
    ensures
        0 < spec_triangular(x as int, a as int, b as int, c as int),
{
    if x == b {
    } else if x < b {
        lemma_width_fits(a, b);
        lemma_ramp_strict(0, x - a, b - a);
    } else {
        lemma_width_fits(b, c);
        lemma_ramp_strict(0, c - x, c - b);
    }
}

/// A peak that lies strictly between the feet is fully a member.
pub proof fn lemma_triangular_full_at_peak(a: int, b: int, c: int)
    requires
        a < b < c,
    ensures
        spec_triangular(b, a, b, c) == DEGREE_ONE,
{
}

/// Left of the peak the degree grows strictly with `x`.
pub proof fn lemma_triangular_rising(x1: i32, x2: i32, a: i32, b: i32, c: i32)
    requires
        triangle_in_order(a as int, b as int, c as int),
        a < x1 < x2 < b,
    ensures
        spec_triangular(x1 as int, a as int, b as int, c as int) < spec_triangular(
            x2 as int,
            a as int,
            b as int,
            c as int,
        ),
{
    lemma_width_fits(a, b);
    lemma_ramp_strict(x1 - a, x2 - a, b - a);
}

/// Right of the peak the degree drops strictly as `x` grows.
pub proof fn lemma_triangular_falling(x1: i32, x2: i32, a: i32, b: i32, c: i32)
    requires
        triangle_in_order(a as int, b as int, c as int),
        b < x1 < x2 < c,
    ensures
        spec_triangular(x1 as int, a as int, b as int, c as int) > spec_triangular(
            x2 as int,
            a as int,
            b as int,
            c as int,
        ),
{
    lemma_width_fits(b, c);
    lemma_ramp_strict(c - x2, c - x1, c - b);
}

fn ramp_degree(offset: u64, width: u64) -> (degree: u64)
    requires
        offset < width,
    ensures
        degree == ramp(offset as int, width as int),
        degree < DEGREE_ONE,
{
    proof {
        lemma_ramp_bounds(offset as int, width as int);
    }
    let scaled: u128 = offset as u128 * DEGREE_ONE as u128;
    (scaled / width as u128) as u64
}

/// Distance from `low` up to `high`.
fn span(low: i32, high: i32) -> (distance: u64)
    requires
        low <= high,
    ensures
        distance == high - low,
{
    (high as i64 - low as i64) as u64
}

/// Evaluates a trapezoidal membership function at `x`.
pub fn trapezoidal(x: i32, a: i32, b: i32, c: i32, d: i32) -> (degree: u64)
    ensures
        degree == spec_trapezoidal(x as int, a as int, b as int, c as int, d as int),
        degree <= DEGREE_ONE,
{
    if x <= a || x >= d {
        0
    } else if x >= b && x <= c {
        DEGREE_ONE
    } else if x > a && x < b {
        ramp_degree(span(a, x), span(a, b))
    } else {
        ramp_degree(span(x, d), span(c, d))
    }
}

/// Evaluates a triangular membership function at `x`.
pub fn triangular(x: i32, a: i32, b: i32, c: i32) -> (degree: u64)
    ensures
        degree == spec_triangular(x as int, a as int, b as int, c as int),
        degree <= DEGREE_ONE,
{
    if x <= a || x >= c {
        0
    } else if x == b {
        DEGREE_ONE
    } else if x > a && x < b {
        ramp_degree(span(a, x), span(a, b))
    } else {
        ramp_degree(span(x, c), span(b, c))
    }
}

} // verus!
