//! Target dimensions of a resize.
//!
//! Lengths are scaled by exact fractions and rounded to the nearest integer,
//! a half going up. Nothing here touches pixels.

use vstd::prelude::*;
use crate::error::{Failure, ImageToolError};
use crate::scale::ScaleFactor;

verus! {

/// What a resize is asked to reach.
#[derive(Clone, Copy, Debug)]
pub enum ResizeMode {
    /// A width and a height in pixels; zero stands for a side that was not given.
    Absolute(u32, u32),
    /// A factor applied to both sides.
    Scale(ScaleFactor),
}

/// The integer nearest to `a / b`, a half going up, for `a >= 0` and `b > 0`.
pub open spec fn round_div(a: int, b: int) -> int {
    (2 * a + b) / (2 * b)
}

/// The width and height that a resize of a `src_w` by `src_h` source aims at,
/// before any limit is applied.
///
/// - A scale factor multiplies both sides.
/// - Without `keep_aspect`, the given width and height are taken as they are.
/// - With `keep_aspect` and one side given, the other side follows the
///   source's proportions.
/// - With `keep_aspect` and both sides given, the source is scaled by the
///   smaller of `w / src_w` and `h / src_h`, so that it fits inside the box.
pub open spec fn target_dimensions(src_w: u32, src_h: u32, mode: ResizeMode, keep_aspect: bool) -> (
    int,
    int,
) {
    match mode {
        ResizeMode::Scale(f) => (
            round_div(src_w * f.numerator(), f.denominator()),
            round_div(src_h * f.numerator(), f.denominator()),
        ),
        ResizeMode::Absolute(w, h) => {
            if !keep_aspect || (w == 0 && h == 0) {
                (w as int, h as int)
            } else if h == 0 || (w != 0 && w * src_h <= h * src_w) {
                (w as int, round_div(src_h * w, src_w as int))
            } else {
                (round_div(src_w * h, src_h as int), h as int)
            }
        },
    }
}

/// Whether a resize can be carried out: the source has pixels, and both
/// target sides are at least one pixel and fit in 32 bits.
pub open spec fn resize_possible(
    src_w: u32,
    src_h: u32,
    mode: ResizeMode,
    keep_aspect: bool,
) -> bool {
    let t = target_dimensions(src_w, src_h, mode, keep_aspect);
    &&& src_w > 0
    &&& src_h > 0
    &&& 1 <= t.0 <= u32::MAX
    &&& 1 <= t.1 <= u32::MAX
}

/// What [`round_div`] gives is the nearest integer: the quotient lies at
/// most a half below it and less than a half above it.
pub proof fn lemma_round_div_is_nearest(a: int, b: int)
    requires
        a >= 0,
        b > 0,
    ensures
        2 * b * round_div(a, b) - b <= 2 * a < 2 * b * round_div(a, b) + b,
        round_div(a, b) >= 0,
{
    let r = (2 * a + b) / (2 * b);
    assert(2 * b * r <= 2 * a + b < 2 * b * r + 2 * b && r >= 0) by (nonlinear_arith)
        requires
            a >= 0,
            b > 0,
            r == (2 * a + b) / (2 * b),
    ;
}

/// Rounding an exact multiple gives the multiple back.
pub proof fn lemma_round_div_exact(x: int, n: int)
    requires
        x >= 0,
        n > 0,
    ensures
        round_div(x * n, n) == x,
{
    assert((2 * (x * n) + n) / (2 * n) == x) by (nonlinear_arith)
        requires
            x >= 0,
            n > 0,
    ;
}

/// A quotient rounds to at most `bound` when it is at most `bound`.
pub proof fn lemma_round_div_bounded(a: int, b: int, bound: int)
    requires
        a >= 0,
        b > 0,
        bound >= 0,
        a <= bound * b,
    ensures
        0 <= round_div(a, b) <= bound,
{
    assert(0 <= (2 * a + b) / (2 * b) <= bound) by (nonlinear_arith)
        requires
            a >= 0,
            b > 0,
            bound >= 0,
            a <= bound * b,
    ;
}

/// Identity, by factor: a scale factor equal to one keeps the dimensions of
/// every source.
pub proof fn lemma_unit_scale_is_identity(src_w: u32, src_h: u32, f: ScaleFactor, keep_aspect: bool)
    requires
        f.wf(),
        f.numerator() == f.denominator(),
    ensures
        target_dimensions(src_w, src_h, ResizeMode::Scale(f), keep_aspect) == (
            src_w as int,
            src_h as int,
        ),
{
    lemma_round_div_exact(src_w as int, f.denominator());
    lemma_round_div_exact(src_h as int, f.denominator());
}

/// Identity, by size: asking for the source's own width and height keeps the
/// dimensions, whether or not the proportions are to be kept.
pub proof fn lemma_same_size_is_identity(src_w: u32, src_h: u32, keep_aspect: bool)
    ensures
        target_dimensions(src_w, src_h, ResizeMode::Absolute(src_w, src_h), keep_aspect) == (
            src_w as int,
            src_h as int,
        ),
{
    if src_w > 0 {
        lemma_round_div_exact(src_h as int, src_w as int);
    }
    if src_h > 0 {
        lemma_round_div_exact(src_w as int, src_h as int);
    }
}

/// Stretch: without `keep_aspect` the target is exactly what was asked for,
/// whatever the source.
pub proof fn lemma_stretch_is_exact(src_w: u32, src_h: u32, w: u32, h: u32)
    ensures
        target_dimensions(src_w, src_h, ResizeMode::Absolute(w, h), false) == (w as int, h as int),
{
}

/// Fit inside: with `keep_aspect` and both sides given, the target lies
/// within the box and touches it on at least one side.
pub proof fn lemma_fit_inside_box(src_w: u32, src_h: u32, w: u32, h: u32)
    requires
        src_w > 0,
        src_h > 0,
        w > 0,
        h > 0,
    ensures
        ({
            let t = target_dimensions(src_w, src_h, ResizeMode::Absolute(w, h), true);
            &&& 0 <= t.0 <= w
            &&& 0 <= t.1 <= h
            &&& t.0 == w || t.1 == h
        }),
{
    if w * src_h <= h * src_w {
        lemma_round_div_bounded(src_h * w, src_w as int, h as int);
    } else {
        assert(src_w * h <= w * src_h) by (nonlinear_arith)
            requires
                w * src_h > h * src_w,
        ;
        lemma_round_div_bounded(src_w * h, src_h as int, w as int);
    }
}

/// Computes [`round_div`].
fn rounded_quotient(a: u128, b: u128) -> (q: u128)
    requires
        b > 0,
        a <= 0xFFFF_FFFF_FFFF_FFFF_FFFF_FFFF,
        b <= 0xFFFF_FFFF_FFFF_FFFF,
    ensures
        q == round_div(a as int, b as int),
{
    (2 * a + b) / (2 * b)
}

/// One side of the target: `length * num / den`, rounded, if it is at least
/// one pixel and fits in 32 bits.
fn scaled_length(length: u32, num: u64, den: u64) -> (r: Option<u32>)
    requires
        den > 0,
    ensures
        r is Some <==> 1 <= round_div(length * num, den as int) <= u32::MAX,
        r is Some ==> r->Some_0 == round_div(length * num, den as int),
{
    assert(length * num <= 0xFFFF_FFFF * 0xFFFF_FFFF_FFFF_FFFF) by (nonlinear_arith)
        requires
            0 <= length <= 0xFFFF_FFFF,
            0 <= num <= 0xFFFF_FFFF_FFFF_FFFF,
    ;
    let product: u128 = (length as u128) * (num as u128);
    let q: u128 = rounded_quotient(product, den as u128);
    if 1 <= q && q <= 0xFFFF_FFFF {
        Some(q as u32)
    } else {
        None
    }
}

/// The failure reported when a resize cannot be carried out.
pub open spec fn resize_rejection() -> Seq<char> {
    "Resize target must be between 1 and 4294967295 pixels on each side"@
}

/// The width and height that a resize of a `src_w` by `src_h` source produces.
///
/// Fails with `InvalidParameter` exactly when the resize is not possible:
/// the source is empty, or a target side comes out as zero or does not fit
/// in 32 bits.
pub fn compute_target_dimensions(
    src_w: u32,
    src_h: u32,
    mode: ResizeMode,
    keep_aspect: bool,
) -> (r: Result<(u32, u32), ImageToolError>)
    ensures
        r is Ok <==> resize_possible(src_w, src_h, mode, keep_aspect),
        r is Ok ==> (r->Ok_0.0 as int, r->Ok_0.1 as int) == target_dimensions(
            src_w,
            src_h,
            mode,
            keep_aspect,
        ),
        r is Err ==> r->Err_0.reports(Failure::invalid(resize_rejection())),
{
    if src_w == 0 || src_h == 0 {
        return Err(rejection());
    }
    let sides: (Option<u32>, Option<u32>) = match mode {
        ResizeMode::Scale(f) => (
            scaled_length(src_w, f.num(), f.den()),
            scaled_length(src_h, f.num(), f.den()),
        ),
        ResizeMode::Absolute(w, h) => {
            if !keep_aspect || (w == 0 && h == 0) {
                (positive(w), positive(h))
            } else if h == 0 || (w != 0 && product(w, src_h) <= product(h, src_w)) {
                (positive(w), scaled_length(src_h, w as u64, src_w as u64))
            } else {
                (scaled_length(src_w, h as u64, src_h as u64), positive(h))
            }
        },
    };
    match sides {
        (Some(w), Some(h)) => Ok((w, h)),
        _ => Err(rejection()),
    }
}

/// The product of two 32-bit lengths.
fn product(a: u32, b: u32) -> (p: u64)
    ensures
        p == a * b,
{
    assert(a * b <= 0xFFFF_FFFF * 0xFFFF_FFFF) by (nonlinear_arith)
        requires
            0 <= a <= 0xFFFF_FFFF,
            0 <= b <= 0xFFFF_FFFF,
    ;
    (a as u64) * (b as u64)
}

/// A side that is given as it is: accepted if it is not zero.
fn positive(side: u32) -> (r: Option<u32>)
    ensures
        r is Some <==> side >= 1,
        r is Some ==> r->Some_0 == side,
{
    if side >= 1 {
        Some(side)
    } else {
        None
    }
}

fn rejection() -> (e: ImageToolError)
    ensures
        e.reports(Failure::invalid(resize_rejection())),
{
    ImageToolError::invalid_parameter(
        "Resize target must be between 1 and 4294967295 pixels on each side",
    )
}

} // verus!
